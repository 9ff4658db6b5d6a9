//! Options of `channels tokens create`.

use vstd::prelude::*;

verus! {

/// Creates a channel token: an expiration (a date or a duration) and an
/// initial state as JSON text, both optional.
#[derive(Clone, Debug, PartialEq, Eq, Default)]
pub struct Options {
    pub expires_at: Option<String>,
    pub state: Option<String>,
}

} // verus!
