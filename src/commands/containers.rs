//! Options of `containers create`.

use vstd::prelude::*;

verus! {

/// Creates containers for a deployment, named or chosen interactively.
#[derive(Clone, Debug, PartialEq, Eq, Default)]
pub struct Options {
    pub deployment: Option<String>,
    pub count: Option<u64>,
}

} // verus!
