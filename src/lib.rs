//! Policy resolution and scan-outcome logic for a tree-wide spelling checker.
//!
//! A run resolves, for every directory and file type it visits, the effective
//! policy from built-in defaults, the nearest project configuration, an
//! explicit custom configuration and command-line overrides; it then folds the
//! per-file outcomes of all roots into one exit classification.
pub mod policy;
pub mod file_type_specifics;
pub mod storage;
pub mod engine;
pub mod status;
pub mod checks;
