//! Phase sequencer for a four-coil stepper motor: a deterministic four-state
//! cycle that energizes exactly one of four output lines per step index, plus
//! a stopped state with every line low.

use vstd::prelude::*;
use vstd::arithmetic::div_mod::{lemma_mod_bound, lemma_mod_multiples_vanish};

verus! {

/// The four line levels a step index drives: exactly the line selected by the
/// Euclidean remainder `p` is high.
pub open spec fn phase_out(p: int) -> Seq<bool> {
    seq![p == 0, p == 1, p == 2, p == 3]
}

/// All four lines low: the de-energized state.
pub open spec fn low_out() -> Seq<bool> {
    seq![false, false, false, false]
}

/// How many of the four lines are high.
pub open spec fn high_count(o: Seq<bool>) -> int
    recommends
        o.len() == 4,
{
    (if o[0] { 1int } else { 0 }) + (if o[1] { 1int } else { 0 }) + (if o[2] { 1int } else { 0 })
        + (if o[3] { 1int } else { 0 })
}

/// The state of one stepper motor's four output lines. The ghost history
/// records every output state ever driven onto the lines, oldest first, so a
/// contract can speak about the whole sequence of writes a motion run makes.
pub struct Stepper {
    pub p1: bool,
    pub p2: bool,
    pub p3: bool,
    pub p4: bool,
    pub hist: Ghost<Seq<Seq<bool>>>,
}

impl Stepper {
    /// The levels currently driven onto the four lines.
    pub open spec fn out(self) -> Seq<bool> {
        seq![self.p1, self.p2, self.p3, self.p4]
    }

    /// Safety invariant of the motor: no write ever energizes two coils at
    /// once.
    pub open spec fn writes_safe(self) -> bool {
        forall|k: int| 0 <= k < self.hist@.len() ==> high_count(#[trigger] self.hist@[k]) <= 1
    }

    /// A fresh stepper: all lines low, nothing written yet.
    pub fn new() -> (s: Stepper)
        ensures
            s.out() == low_out(),
            s.hist@ == Seq::<Seq<bool>>::empty(),
            s.writes_safe(),
    {
        let s = Stepper {
            p1: false,
            p2: false,
            p3: false,
            p4: false,
            hist: Ghost(Seq::empty()),
        };
        proof {
            assert(s.out() =~= low_out());
        }
        s
    }

    /// Drives the output state for phase `step mod 4`, with the remainder
    /// taken Euclidean (never negative), so forward and reverse indices both
    /// land on the four-cycle. Never fails; one line high, three low.
    pub fn step(&mut self, step: i64)
        ensures
            final(self).out() == phase_out(step as int % 4),
            high_count(final(self).out()) == 1,
            final(self).hist@ == old(self).hist@.push(phase_out(step as int % 4)),
            old(self).writes_safe() ==> final(self).writes_safe(),
    {
        proof {
            lemma_mod_bound(step as int, 4);
        }
        let ph: i64 = step.checked_rem_euclid(4).unwrap();
        self.p1 = ph == 0;
        self.p2 = ph == 1;
        self.p3 = ph == 2;
        self.p4 = ph == 3;
        proof {
            self.hist@ = self.hist@.push(phase_out(step as int % 4));
            assert(self.out() =~= phase_out(step as int % 4));
            lemma_step_selects_one_phase(step as int);
        }
    }

    /// De-energizes all four lines, whatever was driven before: the stopped
    /// state, held between motion runs so the motor draws no current. A
    /// second stop in a row leaves the outputs exactly as the first did.
    pub fn stop(&mut self)
        ensures
            final(self).out() == low_out(),
            high_count(final(self).out()) == 0,
            final(self).hist@ == old(self).hist@.push(low_out()),
            old(self).writes_safe() ==> final(self).writes_safe(),
    {
        self.p1 = false;
        self.p2 = false;
        self.p3 = false;
        self.p4 = false;
        proof {
            self.hist@ = self.hist@.push(low_out());
            assert(self.out() =~= low_out());
        }
    }
}

/// Law: for every step index, including negative ones, exactly one of the
/// four outputs is high — the one selected by the index's Euclidean remainder
/// by four — and indices four apart drive identical output states.
pub proof fn lemma_step_selects_one_phase(i: int)
    ensures
        0 <= i % 4 < 4,
        high_count(phase_out(i % 4)) == 1,
        phase_out(i % 4)[i % 4],
        forall|j: int| 0 <= j < 4 && j != i % 4 ==> !(#[trigger] phase_out(i % 4)[j]),
        phase_out((i + 4) % 4) == phase_out(i % 4),
{
    lemma_mod_bound(i, 4);
    lemma_mod_multiples_vanish(1, i, 4);
    assert(4 * 1 + i == i + 4);
    assert((i + 4) % 4 == i % 4);
}

} // verus!
