//! What a session token says.

use vstd::prelude::*;

verus! {

/// The claims of a session token: whom it speaks for, and the second (Unix
/// time) at which it stops being valid.
#[derive(Debug, Clone, PartialEq, Eq)]
pub struct Claims {
    pub sub: String,
    pub exp: u64,
}

impl View for Claims {
    type V = (Seq<char>, u64);

    open spec fn view(&self) -> (Seq<char>, u64) {
        (self.sub@, self.exp)
    }
}

} // verus!
