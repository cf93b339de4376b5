//! HTTP status codes as the client reads them.

use vstd::prelude::*;

verus! {

/// Whether `status` lies in the success class of HTTP, 200 to 299.
pub open spec fn spec_is_success(status: u16) -> bool {
    200 <= status < 300
}

/// Tells whether the server signalled success.
pub fn is_success(status: u16) -> (ok: bool)
    ensures
        ok == spec_is_success(status),
{
    200 <= status && status < 300
}

} // verus!
