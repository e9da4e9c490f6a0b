//! The order and pace in which a frame goes out.
//!
//! The controller reads a frame byte by byte and loses its place when two
//! bytes arrive too close together, so each byte is written on its own and
//! the line rests between one byte and the next.

use vstd::prelude::*;

verus! {

/// The rest between two bytes, in milliseconds, that the controller is known
/// to cope with.
pub const INTER_BYTE_DELAY_MS: u64 = 5;

/// How long one write may take, in milliseconds, before it counts as failed.
pub const WRITE_TIMEOUT_MS: u64 = 10;

/// One thing to do while a frame goes out.
#[derive(Clone, Copy, Debug, PartialEq, Eq, Structural)]
pub enum Step {
    /// Write this byte, alone.
    Write(u8),
    /// Leave the line idle for this many milliseconds.
    Pause(u64),
}

/// The steps that send `frame`: its bytes in order, each written alone, with
/// one pause of `delay_ms` between a byte and the next, none before the first
/// byte and none after the last.
pub open spec fn emission_steps(frame: Seq<u8>, delay_ms: u64) -> Seq<Step> {
    Seq::new(
        if frame.len() == 0 {
            0
        } else {
            (2 * frame.len() - 1) as nat
        },
        |i: int|
            if i % 2 == 0 {
                Step::Write(frame[i / 2])
            } else {
                Step::Pause(delay_ms)
            },
    )
}

/// Lays out the steps that send `frame` with `delay_ms` between its bytes.
pub fn emission_plan(frame: &[u8; 5], delay_ms: u64) -> (plan: Vec<Step>)
    ensures
        plan@ == emission_steps(frame@, delay_ms),
{
    let mut plan: Vec<Step> = Vec::new();
    let mut sent: usize = 0;
    while sent < 5
        invariant
            sent <= 5,
            plan@ == emission_steps(frame@.take(sent as int), delay_ms),
        decreases 5 - sent,
    {
        if sent > 0 {
            plan.push(Step::Pause(delay_ms));
        }
        plan.push(Step::Write(frame[sent]));
        sent += 1;
    }
    plan
}

/// In the steps that send a frame, byte `k` of the frame is written at step
/// `2 * k`, a pause stands after every byte but the last, and the steps end
/// with the last byte.
pub proof fn lemma_emission_layout(frame: Seq<u8>, delay_ms: u64, k: int)
    requires
        0 <= k < frame.len(),
    ensures
        emission_steps(frame, delay_ms).len() == 2 * frame.len() - 1,
        emission_steps(frame, delay_ms)[2 * k] == Step::Write(frame[k]),
        k + 1 < frame.len() ==> emission_steps(frame, delay_ms)[2 * k + 1]
            == Step::Pause(delay_ms),
{
}

} // verus!
