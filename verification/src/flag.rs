use vstd::prelude::*;
use std::sync::atomic::AtomicBool;
use std::sync::Arc;

verus! {

/// Calls `Arc::clone`: a second handle to the same flag.
#[verifier::external_body]
pub(crate) fn share_flag(f: &Arc<AtomicBool>) -> (g: Arc<AtomicBool>)
    ensures
        g == *f,
{
    Arc::clone(f)
}

} // verus!
