//! Options of `projects create`.

use vstd::prelude::*;

verus! {

/// Creates a project in a namespace, optionally as the default one.
#[derive(Clone, Debug, PartialEq, Eq, Default)]
pub struct Options {
    pub namespace: String,
    pub name: String,
    pub default: bool,
}

} // verus!
