//! Error taxonomy of the service core.

use vstd::prelude::*;

verus! {

/// Every way a core operation can fail.
///
/// * `Validation` — the request itself is malformed (an empty tenant id).
/// * `Unauthorized` — the presented access key does not match the bound one.
/// * `NotFound` — an artwork lookup missed both the cache and the origin.
/// * `Internal` — a resource of the store itself ran out; transport layers
///   also map their own faults (store unreachable, origin unreachable) here.
#[derive(Clone, Copy, Debug, PartialEq, Eq, Structural)]
pub enum ServiceError {
    Validation,
    Unauthorized,
    NotFound,
    Internal,
}

} // verus!
