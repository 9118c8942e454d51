//! The table of documentation files bound to test names.
use vstd::prelude::*;

verus! {

/// Where the text of a registered documentation file is read from.
#[derive(Clone, Copy, Debug, PartialEq, Eq, Structural)]
pub enum Source {
    /// The documentation tree itself.
    Docs,
    /// A copy that the build placed in its output directory.
    BuildOutput,
}

/// Why a registration or a resolution was refused.
#[derive(Clone, Copy, Debug, PartialEq, Eq, Structural)]
pub enum RegistryError {
    /// The test name is not an identifier.
    InvalidName,
    /// The path is empty or absolute.
    InvalidPath,
    /// Another entry already has this test name.
    DuplicateName,
    /// The entry at this index names a file that does not exist.
    MissingFile(usize),
}

/// One documentation file bound to the test that runs its samples.
#[derive(Debug)]
pub struct DocSample {
    pub name: String,
    pub path: String,
    pub source: Source,
}

/// What a `DocSample` stands for.
pub struct SampleView {
    pub name: Seq<char>,
    pub path: Seq<char>,
    pub source: Source,
}

impl View for DocSample {
    type V = SampleView;

    open spec fn view(&self) -> SampleView {
        SampleView { name: self.name@, path: self.path@, source: self.source }
    }
}

/// A character that may begin a test name.
pub open spec fn is_name_start(c: char) -> bool {
    ('a' <= c && c <= 'z') || ('A' <= c && c <= 'Z') || c == '_'
}

/// A character that may stand anywhere in a test name.
pub open spec fn is_name_char(c: char) -> bool {
    is_name_start(c) || ('0' <= c && c <= '9')
}

/// A test name is an identifier: a letter or `_` followed by letters,
/// digits and `_`, and not `_` alone.
pub open spec fn valid_test_name(s: Seq<char>) -> bool {
    &&& s.len() > 0
    &&& is_name_start(s[0])
    &&& forall|k: int| 0 <= k < s.len() ==> #[trigger] is_name_char(s[k])
    &&& s != seq!['_']
}

/// A documentation path is relative: not empty, and not starting at `/`.
pub open spec fn valid_doc_path(s: Seq<char>) -> bool {
    s.len() > 0 && s[0] != '/'
}

/// Whether some entry has the test name `name`.
pub open spec fn has_name(entries: Seq<SampleView>, name: Seq<char>) -> bool {
    exists|i: int| 0 <= i < entries.len() && #[trigger] entries[i].name == name
}

/// No two entries share a test name.
pub open spec fn names_unique(entries: Seq<SampleView>) -> bool {
    forall|i: int, j: int|
        0 <= i < entries.len() && 0 <= j < entries.len() && i != j ==> #[trigger] entries[i].name
            != #[trigger] entries[j].name
}

/// Every name is an identifier, every path relative, and names are unique.
pub open spec fn entries_wf(entries: Seq<SampleView>) -> bool {
    &&& forall|i: int| 0 <= i < entries.len() ==> valid_test_name(#[trigger] entries[i].name)
    &&& forall|i: int| 0 <= i < entries.len() ==> valid_doc_path(#[trigger] entries[i].path)
    &&& names_unique(entries)
}

/// Checks that `name` is a valid test name.
pub fn is_valid_test_name(name: &str) -> (r: bool)
    ensures
        r == valid_test_name(name@),
{
    let n = name.unicode_len();
    if n == 0 {
        return false;
    }
    let first = name.get_char(0);
    if !(('a' <= first && first <= 'z') || ('A' <= first && first <= 'Z') || first == '_') {
        return false;
    }
    let mut k: usize = 0;
    while k < n
        invariant
            n == name@.len(),
            k <= n,
            forall|j: int| 0 <= j < k ==> #[trigger] is_name_char(name@[j]),
        decreases n - k,
    {
        let c = name.get_char(k);
        if !(('a' <= c && c <= 'z') || ('A' <= c && c <= 'Z') || c == '_' || ('0' <= c && c
            <= '9')) {
            assert(!is_name_char(name@[k as int]));
            return false;
        }
        k = k + 1;
    }
    if n == 1 && first == '_' {
        assert(name@ =~= seq!['_']);
        return false;
    }
    assert(name@.len() != 1 || name@[0] != '_' ==> name@ != seq!['_']);
    true
}

/// Checks that `path` is a relative documentation path.
pub fn is_valid_doc_path(path: &str) -> (r: bool)
    ensures
        r == valid_doc_path(path@),
{
    let n = path.unicode_len();
    if n == 0 {
        return false;
    }
    path.get_char(0) != '/'
}

/// The registry: an ordered table of documentation files, each bound to a
/// test whose name no other entry has.
pub struct Registry {
    entries: Vec<DocSample>,
}

impl View for Registry {
    type V = Seq<SampleView>;

    closed spec fn view(&self) -> Seq<SampleView> {
        self.entries@.map_values(|e: DocSample| e@)
    }
}

/// Whether `path` is among `known`.
pub open spec fn listed(known: Seq<Seq<char>>, path: Seq<char>) -> bool {
    exists|k: int| 0 <= k < known.len() && #[trigger] known[k] == path
}

/// Whether an entry names a file that exists: one of `docs` for the
/// documentation tree, one of `generated` for the build output.
pub open spec fn resolves(e: SampleView, docs: Seq<Seq<char>>, generated: Seq<Seq<char>>) -> bool {
    match e.source {
        Source::Docs => listed(docs, e.path),
        Source::BuildOutput => listed(generated, e.path),
    }
}

/// No entry names a file that does not exist.
pub open spec fn all_resolve(
    entries: Seq<SampleView>,
    docs: Seq<Seq<char>>,
    generated: Seq<Seq<char>>,
) -> bool {
    forall|i: int| 0 <= i < entries.len() ==> resolves(#[trigger] entries[i], docs, generated)
}

/// The result of resolving `entries`: the first entry whose file is
/// missing, if any.
pub open spec fn resolve_spec(
    entries: Seq<SampleView>,
    docs: Seq<Seq<char>>,
    generated: Seq<Seq<char>>,
    r: Result<(), RegistryError>,
) -> bool {
    match r {
        Ok(()) => all_resolve(entries, docs, generated),
        Err(RegistryError::MissingFile(i)) => {
            &&& i < entries.len()
            &&& !resolves(entries[i as int], docs, generated)
            &&& forall|j: int| 0 <= j < i ==> resolves(#[trigger] entries[j], docs, generated)
        },
        Err(_) => false,
    }
}

/// Whether `path` is one of `known`.
fn is_listed(known: &Vec<String>, path: &String) -> (r: bool)
    ensures
        r == listed(known@.map_values(|s: String| s@), path@),
{
    let ghost kv = known@.map_values(|s: String| s@);
    let mut k: usize = 0;
    while k < known.len()
        invariant
            k <= known@.len(),
            kv == known@.map_values(|s: String| s@),
            forall|j: int| 0 <= j < k ==> #[trigger] kv[j] != path@,
        decreases known@.len() - k,
    {
        if known[k] == *path {
            assert(kv[k as int] == path@);
            return true;
        }
        k = k + 1;
    }
    false
}

impl Registry {
    /// The registry's invariant, kept by every operation.
    pub closed spec fn wf(&self) -> bool {
        entries_wf(self@)
    }

    /// A registry with no entries.
    pub fn new() -> (r: Registry)
        ensures
            r.wf(),
            r@.len() == 0,
    {
        let r = Registry { entries: Vec::new() };
        assert(r@ =~= Seq::<SampleView>::empty());
        r
    }

    /// The number of entries.
    pub fn len(&self) -> (r: usize)
        ensures
            r == self@.len(),
    {
        self.entries.len()
    }

    /// The entry at `i`, in order of registration.
    pub fn get(&self, i: usize) -> (r: &DocSample)
        requires
            i < self@.len(),
        ensures
            r@ == self@[i as int],
    {
        &self.entries[i]
    }

    /// Whether some entry has the test name `name`.
    pub fn contains_name(&self, name: &String) -> (r: bool)
        ensures
            r == has_name(self@, name@),
    {
        let mut i: usize = 0;
        while i < self.entries.len()
            invariant
                i <= self@.len(),
                forall|j: int| 0 <= j < i ==> #[trigger] self@[j].name != name@,
            decreases self@.len() - i,
        {
            if self.entries[i].name == *name {
                assert(self@[i as int].name == name@);
                return true;
            }
            i = i + 1;
        }
        false
    }

    /// Adds an entry that runs the samples of the file at `path` as the
    /// test `name`. The name must be an identifier that no entry has yet,
    /// and the path must be relative; otherwise the registry is unchanged
    /// and the first of these faults is returned.
    pub fn register(&mut self, name: String, path: String, source: Source) -> (r: Result<
        (),
        RegistryError,
    >)
        requires
            old(self).wf(),
        ensures
            final(self).wf(),
            !valid_test_name(name@) ==> r == Err::<(), RegistryError>(RegistryError::InvalidName),
            valid_test_name(name@) && !valid_doc_path(path@) ==> r == Err::<(), RegistryError>(
                RegistryError::InvalidPath,
            ),
            valid_test_name(name@) && valid_doc_path(path@) && has_name(old(self)@, name@) ==> r
                == Err::<(), RegistryError>(RegistryError::DuplicateName),
            r is Ok <==> valid_test_name(name@) && valid_doc_path(path@) && !has_name(
                old(self)@,
                name@,
            ),
            r is Ok ==> final(self)@ == old(self)@.push(
                SampleView { name: name@, path: path@, source },
            ),
            r is Err ==> final(self)@ == old(self)@,
    {
        if !is_valid_test_name(name.as_str()) {
            return Err(RegistryError::InvalidName);
        }
        if !is_valid_doc_path(path.as_str()) {
            return Err(RegistryError::InvalidPath);
        }
        if self.contains_name(&name) {
            return Err(RegistryError::DuplicateName);
        }
        let ghost before = self@;
        let ghost added = SampleView { name: name@, path: path@, source };
        self.entries.push(DocSample { name, path, source });
        assert(self@ =~= before.push(added));
        assert forall|i: int, j: int|
            0 <= i < self@.len() && 0 <= j < self@.len() && i != j implies #[trigger] self@[i].name
            != #[trigger] self@[j].name by {
            if i == before.len() {
                assert(!has_name(before, name@) ==> before[j].name != name@);
            } else if j == before.len() {
                assert(!has_name(before, name@) ==> before[i].name != name@);
            }
        }
        Ok(())
    }

    /// Checks that every entry names a file that exists: for the
    /// documentation tree one of `docs`, for the build output one of
    /// `generated`. Fails with the first entry whose file is missing.
    pub fn resolve(&self, docs: &Vec<String>, generated: &Vec<String>) -> (r: Result<
        (),
        RegistryError,
    >)
        ensures
            resolve_spec(
                self@,
                docs@.map_values(|s: String| s@),
                generated@.map_values(|s: String| s@),
                r,
            ),
    {
        let ghost dv = docs@.map_values(|s: String| s@);
        let ghost gv = generated@.map_values(|s: String| s@);
        let mut i: usize = 0;
        while i < self.entries.len()
            invariant
                i <= self@.len(),
                dv == docs@.map_values(|s: String| s@),
                gv == generated@.map_values(|s: String| s@),
                forall|j: int| 0 <= j < i ==> resolves(#[trigger] self@[j], dv, gv),
            decreases self@.len() - i,
        {
            let e = &self.entries[i];
            let found = match e.source {
                Source::Docs => is_listed(docs, &e.path),
                Source::BuildOutput => is_listed(generated, &e.path),
            };
            if !found {
                return Err(RegistryError::MissingFile(i));
            }
            i = i + 1;
        }
        Ok(())
    }
}

/// Every character of `s` from position `k` on may stand in a test name.
spec fn name_chars_from(s: Seq<char>, k: int) -> bool
    decreases s.len() - k,
{
    if k >= s.len() {
        true
    } else {
        is_name_char(s[k]) && name_chars_from(s, k + 1)
    }
}

proof fn lemma_name_chars_from(s: Seq<char>, k: int)
    requires
        0 <= k,
        name_chars_from(s, k),
    ensures
        forall|j: int| k <= j < s.len() ==> #[trigger] is_name_char(s[j]),
    decreases s.len() - k,
{
    if k < s.len() {
        lemma_name_chars_from(s, k + 1);
    }
}

/// The documentation files that ship with the project, each bound to the
/// test that runs its samples.
pub open spec fn standard_entries() -> Seq<SampleView> {
    seq![
        SampleView {
            name: "test_sample_app"@,
            path: "getting-started/build-a-sample-app.md"@,
            source: Source::BuildOutput,
        },
        SampleView {
            name: "test_optimizations"@,
            path: "advanced-topics/optimizations.md"@,
            source: Source::Docs,
        },
        SampleView {
            name: "test_properties"@,
            path: "concepts/components/properties.md"@,
            source: Source::Docs,
        },
        SampleView {
            name: "test_component_readme"@,
            path: "concepts/components/README.md"@,
            source: Source::Docs,
        },
        SampleView {
            name: "test_component_internalstate"@,
            path: "concepts/components/internalstate.md"@,
            source: Source::Docs,
        },
    ]
}

impl Registry {
    /// The registry of the project's own documentation.
    pub fn standard() -> (r: Registry)
        ensures
            r.wf(),
            r@ == standard_entries(),
    {
        let n0 = "test_sample_app";
        let n1 = "test_optimizations";
        let n2 = "test_properties";
        let n3 = "test_component_readme";
        let n4 = "test_component_internalstate";
        let p0 = "getting-started/build-a-sample-app.md";
        let p1 = "advanced-topics/optimizations.md";
        let p2 = "concepts/components/properties.md";
        let p3 = "concepts/components/README.md";
        let p4 = "concepts/components/internalstate.md";
        proof {
            reveal_strlit("test_sample_app");
            reveal_strlit("test_optimizations");
            reveal_strlit("test_properties");
            reveal_strlit("test_component_readme");
            reveal_strlit("test_component_internalstate");
            reveal_strlit("getting-started/build-a-sample-app.md");
            reveal_strlit("advanced-topics/optimizations.md");
            reveal_strlit("concepts/components/properties.md");
            reveal_strlit("concepts/components/README.md");
            reveal_strlit("concepts/components/internalstate.md");
            reveal_with_fuel(name_chars_from, 30);
            assert(name_chars_from(n0@, 0));
            assert(name_chars_from(n1@, 0));
            assert(name_chars_from(n2@, 0));
            assert(name_chars_from(n3@, 0));
            assert(name_chars_from(n4@, 0));
            lemma_name_chars_from(n0@, 0);
            lemma_name_chars_from(n1@, 0);
            lemma_name_chars_from(n2@, 0);
            lemma_name_chars_from(n3@, 0);
            lemma_name_chars_from(n4@, 0);
        }
        let mut r = Registry::new();
        let _ = r.register(n0.to_owned(), p0.to_owned(), Source::BuildOutput);
        let _ = r.register(n1.to_owned(), p1.to_owned(), Source::Docs);
        let _ = r.register(n2.to_owned(), p2.to_owned(), Source::Docs);
        let _ = r.register(n3.to_owned(), p3.to_owned(), Source::Docs);
        let _ = r.register(n4.to_owned(), p4.to_owned(), Source::Docs);
        assert(r@ =~= standard_entries());
        r
    }
}

/// In a well-formed registry every test name is an identifier, every path
/// is relative, and no two entries share a test name.
pub proof fn lemma_test_names_unique(reg: &Registry, i: int, j: int)
    requires
        reg.wf(),
        0 <= i < reg@.len(),
        0 <= j < reg@.len(),
    ensures
        valid_test_name(reg@[i].name),
        valid_doc_path(reg@[i].path),
        i != j ==> reg@[i].name != reg@[j].name,
{
}

/// An entry whose file is not among the known files, because it was
/// renamed or removed, makes resolution fail: the failure names that entry
/// or an earlier one, and nothing is skipped.
pub proof fn lemma_missing_file_fails(
    entries: Seq<SampleView>,
    docs: Seq<Seq<char>>,
    generated: Seq<Seq<char>>,
    i: int,
    r: Result<(), RegistryError>,
)
    requires
        0 <= i < entries.len(),
        !resolves(entries[i], docs, generated),
        resolve_spec(entries, docs, generated, r),
    ensures
        !all_resolve(entries, docs, generated),
        r matches Err(RegistryError::MissingFile(k)) && k <= i,
{
    if let Err(RegistryError::MissingFile(k)) = r {
        if k > i {
            assert(resolves(entries[i], docs, generated));
        }
    }
}

} // verus!
