//! The settings of a run.

use vstd::prelude::*;

verus! {

/// The settings of a run.
#[derive(Debug)]
pub struct Settings {
    /// The name of the project that is written out, if it has one.
    pub project_name: Option<String>,
}

} // verus!
