//! The read-modify-write step of reconfiguring a live device: load the
//! current block, mutate the in-memory copy, store it back. Loading and
//! storing are the caller's device-control calls; the decision between them
//! stands here, verified: a failed load propagates its error unchanged and
//! the mutation is never applied, so there is never a value to store.

use vstd::prelude::*;

use crate::config::SerialRs485;

verus! {

/// Apply `f` to a freshly loaded configuration, or pass a load failure
/// through untouched.
///
/// The caller hands in what its load returned and stores the `Ok` result,
/// if any, back to the device. On `Err` the same error comes back and no
/// configuration is produced, so the store step cannot happen and the
/// device's state is left as it was.
pub fn update_with<E, F: FnOnce(SerialRs485) -> SerialRs485>(
    loaded: Result<SerialRs485, E>,
    f: F,
) -> (r: Result<SerialRs485, E>)
    requires
        loaded matches Ok(c) ==> call_requires(f, (c,)),
    ensures
        loaded matches Err(e) ==> r == Err::<SerialRs485, E>(e),
        loaded matches Ok(c) ==> (r matches Ok(m) && call_ensures(f, (c,), m)),
{
    match loaded {
        Ok(c) => Ok(f(c)),
        Err(e) => Err(e),
    }
}

} // verus!
