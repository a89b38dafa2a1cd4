//! Stratified directions: the full turn is cut into equal arcs, one per
//! sample, and each sample lies at a random place within its own arc.
//!
//! A direction is kept as an exact fraction of the full turn. Turning it
//! into an angle, tracing it and averaging what comes back is arithmetic
//! that rounds, and so the caller's.

use vstd::prelude::*;

verus! {

/// Number of places that a direction can take within its arc.
pub const JITTER_STEPS: u64 = 0x1_0000_0000;

/// A direction, as the fraction `numerator / denominator` of a full turn.
#[derive(Clone, Copy, Debug, PartialEq, Eq, Structural)]
pub struct Turn {
    pub numerator: u64,
    pub denominator: u64,
}

impl Turn {
    /// The direction lies in arc `index` of `samples` equal arcs, counted
    /// from zero: `index / samples <= self < (index + 1) / samples`.
    pub open spec fn in_arc(self, index: nat, samples: nat) -> bool {
        &&& self.denominator == samples * JITTER_STEPS
        &&& index * JITTER_STEPS <= self.numerator < (index + 1) * JITTER_STEPS
    }
}

/// The direction at place `jitter` of arc `index`, of `samples` arcs.
pub open spec fn stratum_of(index: nat, samples: nat, jitter: nat) -> Turn {
    Turn {
        numerator: (index * JITTER_STEPS + jitter) as u64,
        denominator: (samples * JITTER_STEPS) as u64,
    }
}

/// Draws a whole number from `low` up to, and without, `high`.
///
/// Calls `rand::Rng::gen_range` with the range `low..high` on the generator
/// that `rand::thread_rng` hands out. `gen_range` panics on an empty range,
/// which `low < high` rules out, and returns a value of the range. Nothing
/// is said of which value comes: two draws may differ. `thread_rng` itself
/// gives up where the system has no entropy to seed it with.
#[verifier::external_body]
fn draw_between(low: u64, high: u64) -> (drawn: u64)
    requires
        low < high,
    ensures
        low <= drawn < high,
{
    rand::Rng::gen_range(&mut rand::thread_rng(), low..high)
}

/// The direction at place `jitter` of arc `index`, of `samples` arcs. It
/// lies in that arc, and so within the full turn.
pub fn stratified(index: u32, samples: u32, jitter: u64) -> (t: Turn)
    requires
        index < samples,
        jitter < JITTER_STEPS,
    ensures
        t == stratum_of(index as nat, samples as nat, jitter as nat),
        t.numerator == index * JITTER_STEPS + jitter,
        t.denominator == samples * JITTER_STEPS,
        t.in_arc(index as nat, samples as nat),
        t.numerator < t.denominator,
{
    let index_wide: u64 = index as u64;
    let samples_wide: u64 = samples as u64;
    Turn { numerator: index_wide * JITTER_STEPS + jitter, denominator: samples_wide * JITTER_STEPS }
}

/// The directions of one sampling from the places drawn for it, arc by arc:
/// direction `i` lies at place `jitter[i]` of arc `i`. There are none unless
/// there is one place for each of the `samples` arcs and every place is
/// under `JITTER_STEPS`.
pub fn directions_from(samples: u32, jitter: &[u64]) -> (r: Option<Vec<Turn>>)
    ensures
        r is Some <==> jitter@.len() == samples && forall|i: int|
            0 <= i < jitter@.len() ==> jitter@[i] < JITTER_STEPS,
        r matches Some(turns) ==> turns@.len() == samples && forall|i: int|
            0 <= i < samples ==> #[trigger] turns@[i] == stratum_of(
                i as nat,
                samples as nat,
                jitter@[i] as nat,
            ),
{
    if jitter.len() != samples as usize {
        return None;
    }
    let mut turns: Vec<Turn> = Vec::new();
    let mut index: u32 = 0;
    while index < samples
        invariant
            index <= samples,
            jitter@.len() == samples,
            turns@.len() == index,
            forall|i: int| 0 <= i < index ==> jitter@[i] < JITTER_STEPS,
            forall|i: int|
                0 <= i < index ==> #[trigger] turns@[i] == stratum_of(
                    i as nat,
                    samples as nat,
                    jitter@[i] as nat,
                ),
        decreases samples - index,
    {
        let place: u64 = jitter[index as usize];
        if place >= JITTER_STEPS {
            return None;
        }
        turns.push(stratified(index, samples, place));
        index = index + 1;
    }
    Some(turns)
}

/// The directions of one sampling, each at a freshly drawn place of its own
/// arc. Whatever is drawn, there are `samples` of them, direction `i` lies
/// in arc `i`, and all share one denominator.
pub fn sample_directions(samples: u32) -> (turns: Vec<Turn>)
    ensures
        turns@.len() == samples,
        forall|i: int| 0 <= i < samples ==> (#[trigger] turns@[i]).in_arc(i as nat, samples as nat),
{
    let mut turns: Vec<Turn> = Vec::new();
    let mut index: u32 = 0;
    while index < samples
        invariant
            index <= samples,
            turns@.len() == index,
            forall|i: int|
                0 <= i < index ==> (#[trigger] turns@[i]).in_arc(i as nat, samples as nat),
        decreases samples - index,
    {
        let place: u64 = draw_between(0, JITTER_STEPS);
        turns.push(stratified(index, samples, place));
        index = index + 1;
    }
    turns
}

/// Arcs neither overlap nor leave the turn: directions of one sampling are
/// strictly ordered by their arcs, and the last stays under the full turn.
pub proof fn lemma_arcs_are_disjoint(a: Turn, b: Turn, i: nat, j: nat, samples: nat)
    requires
        a.in_arc(i, samples),
        b.in_arc(j, samples),
        i < j < samples,
    ensures
        a.denominator == b.denominator,
        a.numerator < b.numerator < b.denominator,
{
    assert((i + 1) * JITTER_STEPS <= j * JITTER_STEPS) by (nonlinear_arith)
        requires
            i + 1 <= j,
    ;
    assert((j + 1) * JITTER_STEPS <= samples * JITTER_STEPS) by (nonlinear_arith)
        requires
            j + 1 <= samples,
    ;
}

} // verus!
