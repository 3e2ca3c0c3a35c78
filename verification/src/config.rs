use vstd::prelude::*;
use crate::tick::Tick;

verus! {

/// The length of one simulation tick in milliseconds (64 ticks a second,
/// rounded down to whole milliseconds).
pub const TICK_DURATION_MILLISECONDS: u64 = 1000 / 64;

/// The protocol identifier shared by client and server.
pub const PROTOCOL_ID: u64 = 0;

/// The UDP port the server listens on.
pub const SERVER_PORT: u16 = 5000;

/// The number of ticks by which client input is delayed.
pub const INPUT_DELAY_TICKS: u16 = 0;

/// The number of whole ticks that fit in `millis` milliseconds.
pub open spec fn ticks_in(millis: nat) -> nat {
    millis / (TICK_DURATION_MILLISECONDS as nat)
}

/// The number of milliseconds that `ticks` ticks last.
pub open spec fn millis_of(ticks: nat) -> nat {
    ticks * (TICK_DURATION_MILLISECONDS as nat)
}

/// Converts a duration, given in whole milliseconds, to the number of whole
/// ticks it spans. A duration of more than `u16::MAX` ticks does not fit in a
/// tick and is refused by the precondition.
pub fn duration_to_ticks(duration_millis: u128) -> (t: Tick)
    requires
        ticks_in(duration_millis as nat) <= u16::MAX,
    ensures
        t.0 == ticks_in(duration_millis as nat),
{
    let ticks: u128 = duration_millis / (TICK_DURATION_MILLISECONDS as u128);
    Tick(ticks as u16)
}

/// The duration, in milliseconds, of `ticks` ticks.
pub fn ticks_to_duration(ticks: u16) -> (millis: u64)
    ensures
        millis == millis_of(ticks as nat),
{
    ticks as u64 * TICK_DURATION_MILLISECONDS
}

/// Converting a number of ticks to a duration and back gives the same number
/// of ticks.
pub proof fn lemma_ticks_duration_roundtrip(ticks: u16)
    ensures
        ticks_in(millis_of(ticks as nat)) == ticks,
{
    assert((ticks as nat * 15) / 15 == ticks as nat) by (nonlinear_arith);
}

/// Converting a duration to ticks rounds down: the ticks last at most the
/// duration, and less than one tick less.
pub proof fn lemma_duration_ticks_round_down(millis: nat)
    ensures
        millis_of(ticks_in(millis)) <= millis,
        millis < millis_of(ticks_in(millis)) + TICK_DURATION_MILLISECONDS,
{
    let q = millis / 15;
    assert(q * 15 <= millis < q * 15 + 15) by (nonlinear_arith)
        requires q == millis / 15;
}

} // verus!
