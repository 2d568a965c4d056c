//! Declarative management of default-application bindings: a type vocabulary
//! of human-friendly supertype names, an application locator, an association
//! resolver with its routing rules, a handler-registry committer, and a bulk
//! apply engine with selectable partial-failure policy.

pub mod app;
pub mod association;
pub mod config;
pub mod error;
pub mod strutil;
pub mod launch_services;
pub mod metadata;
pub mod launch_services_db;
pub mod uti;
pub mod workspace;

use vstd::prelude::*;

verus! {

/// Process-wide options chosen by the caller of the library.
#[derive(Debug, Clone)]
pub struct GlobalOptions {
    pub config_path: Option<String>,
    pub verbose: bool,
    pub quiet: bool,
    pub robust: bool,
}

impl GlobalOptions {
    /// Options as used when no flag was given: no explicit configuration
    /// path, normal verbosity, strict (non-robust) failure policy.
    pub fn standard() -> (r: GlobalOptions)
        ensures
            r.config_path is None,
            !r.verbose,
            !r.quiet,
            !r.robust,
    {
        GlobalOptions { config_path: None, verbose: false, quiet: false, robust: false }
    }
}

} // verus!
