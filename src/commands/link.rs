//! Options of `link`.

use vstd::prelude::*;

verus! {

/// Links a directory (the current one by default) to an existing
/// deployment, named or chosen interactively.
#[derive(Clone, Debug, PartialEq, Eq, Default)]
pub struct Options {
    pub path: Option<String>,
    pub name: Option<String>,
}

} // verus!
