//! HTTP status classes.
use vstd::prelude::*;

verus! {

/// Whether an HTTP status code is a success (200 to 299), as reqwest's
/// `StatusCode::is_success` decides.
pub open spec fn spec_is_success(code: u16) -> bool {
    200 <= code && code < 300
}

/// Whether an HTTP status code is a success (200 to 299).
pub fn is_success(code: u16) -> (r: bool)
    ensures
        r == spec_is_success(code),
{
    200 <= code && code < 300
}

} // verus!
