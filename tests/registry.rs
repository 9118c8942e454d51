use doc_registry::registry::{is_valid_doc_path, is_valid_test_name, Registry, RegistryError, Source};

fn strings(items: &[&str]) -> Vec<String> {
    items.iter().map(|s| s.to_string()).collect()
}

fn standard_docs() -> Vec<String> {
    strings(&[
        "advanced-topics/optimizations.md",
        "concepts/components/properties.md",
        "concepts/components/README.md",
        "concepts/components/internalstate.md",
    ])
}

fn standard_generated() -> Vec<String> {
    strings(&["getting-started/build-a-sample-app.md"])
}

#[test]
fn standard_registry_lists_the_project_docs() {
    let reg = Registry::standard();
    assert_eq!(reg.len(), 5);
    let expected = [
        ("test_sample_app", "getting-started/build-a-sample-app.md", Source::BuildOutput),
        ("test_optimizations", "advanced-topics/optimizations.md", Source::Docs),
        ("test_properties", "concepts/components/properties.md", Source::Docs),
        ("test_component_readme", "concepts/components/README.md", Source::Docs),
        ("test_component_internalstate", "concepts/components/internalstate.md", Source::Docs),
    ];
    for (i, (name, path, source)) in expected.iter().enumerate() {
        let e = reg.get(i);
        assert_eq!(e.name, *name);
        assert_eq!(e.path, *path);
        assert_eq!(e.source, *source);
    }
}

#[test]
fn standard_registry_names_are_unique() {
    let reg = Registry::standard();
    for i in 0..reg.len() {
        for j in 0..reg.len() {
            if i != j {
                assert_ne!(reg.get(i).name, reg.get(j).name);
            }
        }
    }
}

#[test]
fn register_appends_in_order() {
    let mut reg = Registry::new();
    assert_eq!(reg.len(), 0);
    assert_eq!(reg.register("test_a".to_string(), "a.md".to_string(), Source::Docs), Ok(()));
    assert_eq!(
        reg.register("test_b".to_string(), "dir/b.md".to_string(), Source::BuildOutput),
        Ok(())
    );
    assert_eq!(reg.len(), 2);
    assert_eq!(reg.get(0).name, "test_a");
    assert_eq!(reg.get(1).path, "dir/b.md");
    assert_eq!(reg.get(1).source, Source::BuildOutput);
    assert!(reg.contains_name(&"test_b".to_string()));
    assert!(!reg.contains_name(&"test_c".to_string()));
}

#[test]
fn register_refuses_a_duplicate_name() {
    let mut reg = Registry::new();
    assert_eq!(reg.register("test_a".to_string(), "a.md".to_string(), Source::Docs), Ok(()));
    assert_eq!(
        reg.register("test_a".to_string(), "other.md".to_string(), Source::Docs),
        Err(RegistryError::DuplicateName)
    );
    assert_eq!(reg.len(), 1);
    assert_eq!(reg.get(0).path, "a.md");
}

#[test]
fn register_refuses_an_invalid_name() {
    let mut reg = Registry::new();
    for bad in ["", "1st", "_", "a-b", "has space", "t\u{e9}st"] {
        assert_eq!(
            reg.register(bad.to_string(), "a.md".to_string(), Source::Docs),
            Err(RegistryError::InvalidName)
        );
    }
    assert_eq!(reg.len(), 0);
}

#[test]
fn register_refuses_an_invalid_path() {
    let mut reg = Registry::new();
    assert_eq!(
        reg.register("test_a".to_string(), "".to_string(), Source::Docs),
        Err(RegistryError::InvalidPath)
    );
    assert_eq!(
        reg.register("test_a".to_string(), "/abs/a.md".to_string(), Source::Docs),
        Err(RegistryError::InvalidPath)
    );
    assert_eq!(reg.len(), 0);
}

#[test]
fn name_fault_comes_before_path_fault() {
    let mut reg = Registry::new();
    assert_eq!(
        reg.register("9".to_string(), "/x.md".to_string(), Source::Docs),
        Err(RegistryError::InvalidName)
    );
}

#[test]
fn test_name_rules() {
    assert!(is_valid_test_name("test_sample_app"));
    assert!(is_valid_test_name("_private"));
    assert!(is_valid_test_name("A1"));
    assert!(is_valid_test_name("__"));
    assert!(!is_valid_test_name(""));
    assert!(!is_valid_test_name("_"));
    assert!(!is_valid_test_name("0abc"));
    assert!(!is_valid_test_name("a.b"));
}

#[test]
fn doc_path_rules() {
    assert!(is_valid_doc_path("concepts/components/README.md"));
    assert!(is_valid_doc_path("a"));
    assert!(!is_valid_doc_path(""));
    assert!(!is_valid_doc_path("/etc/a.md"));
}

#[test]
fn standard_registry_resolves_against_its_files() {
    let reg = Registry::standard();
    assert_eq!(reg.resolve(&standard_docs(), &standard_generated()), Ok(()));
}

#[test]
fn resolve_reports_the_first_missing_file() {
    let reg = Registry::standard();
    let mut docs = standard_docs();
    docs.retain(|p| p != "concepts/components/README.md" && p != "concepts/components/properties.md");
    assert_eq!(
        reg.resolve(&docs, &standard_generated()),
        Err(RegistryError::MissingFile(2))
    );
}

#[test]
fn renamed_file_fails_resolution() {
    let reg = Registry::standard();
    let mut docs = standard_docs();
    docs[0] = "advanced-topics/optimisations.md".to_string();
    assert_eq!(
        reg.resolve(&docs, &standard_generated()),
        Err(RegistryError::MissingFile(1))
    );
}

#[test]
fn resolve_looks_in_the_right_place() {
    let reg = Registry::standard();
    let mut docs = standard_docs();
    docs.extend(standard_generated());
    assert_eq!(reg.resolve(&docs, &Vec::new()), Err(RegistryError::MissingFile(0)));
}

#[test]
fn empty_registry_resolves() {
    let reg = Registry::new();
    assert_eq!(reg.resolve(&Vec::new(), &Vec::new()), Ok(()));
}
