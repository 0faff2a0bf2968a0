//! Pre-warming a persistent HTTP response cache: parsing a URL list, driving
//! each URL through a caching fetch client, aggregating per-URL outcomes, and
//! packaging the populated cache directory into one compressed archive.

use vstd::prelude::*;

pub mod archive;
pub mod client;
pub mod errors;
pub mod run;
pub mod urls;

verus! {

/// An HTTP status code counts as success exactly when it lies in the 2xx range.
pub open spec fn is_success_status(status: u16) -> bool {
    200 <= status < 300
}

/// Executable check that a status code lies in the 2xx range.
pub fn status_is_success(status: u16) -> (r: bool)
    ensures
        r == is_success_status(status),
{
    200 <= status && status < 300
}

} // verus!
