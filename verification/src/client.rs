use vstd::prelude::*;
use rand::rngs::ThreadRng;
use rand::Rng;

verus! {

/// Client identities are drawn below this bound.
pub const CLIENT_ID_BOUND: u64 = 1000000;

#[verifier::external_type_specification]
#[verifier::external_body]
pub struct ExThreadRng(ThreadRng);

/// Calls `rand::thread_rng`, which hands out a handle to the generator of the
/// current thread. Nothing is claimed of the generator's state.
#[verifier::external_body]
fn thread_rng() -> ThreadRng {
    rand::thread_rng()
}

/// Calls `Rng::gen_range` on the range `low..high` of `u64`: the value drawn
/// lies in that range. Which value comes out is left to chance. The call
/// panics on an empty range, which the precondition rules out.
#[verifier::external_body]
fn gen_range(rng: &mut ThreadRng, low: u64, high: u64) -> (value: u64)
    requires
        low < high,
    ensures
        low <= value < high,
{
    rng.gen_range(low..high)
}

/// A fresh client identity, drawn at random below `CLIENT_ID_BOUND`.
pub fn new_client_id() -> (id: u64)
    ensures
        id < CLIENT_ID_BOUND,
{
    let mut rng = thread_rng();
    gen_range(&mut rng, 0, CLIENT_ID_BOUND)
}

} // verus!
