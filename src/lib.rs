//! A registry of documentation files whose embedded samples run as tests.
//!
//! Each entry binds a relative documentation path to a test name. The
//! registry keeps test names well formed and unique, checks that every
//! path resolves to a known file, and folds the results of a document's
//! samples into one pass/fail outcome per entry.
pub mod outcome;
pub mod registry;
