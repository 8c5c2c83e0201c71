//! Quadrature decoding and the button-gated position counter.
//!
//! The main loop samples two phase lines and a button once per iteration.
//! Direction is inferred by comparing the fresh phase pair against the
//! pair seen *two distinct states* ago, through a two-deep history that
//! shifts only when the sampled pair differs from the stored one. The
//! decode deliberately accepts exactly one three-sample sequence per
//! direction and rejects everything else; the asymmetry between the
//! three-state comparison and the change-triggered shift is kept exactly
//! as designed rather than smoothed into a symmetric decoder.

use vstd::prelude::*;

verus! {

/// One simultaneous sample of the two quadrature phase lines.
#[derive(Clone, Copy, PartialEq, Eq, Structural, Debug)]
pub struct PhasePair {
    pub a: bool,
    pub b: bool,
}

/// What one decode step does to the position counter: the explicit
/// transition table of the pattern matcher.
#[derive(Clone, Copy, PartialEq, Eq, Structural, Debug)]
pub enum Action {
    Decrement,
    NoChange,
    Increment,
}

/// The one three-sample sequence that decodes as a backward step:
/// two-back (a=false, b=true), one-back (false, false), current (true, false).
pub open spec fn decrement_seen(cur: PhasePair, one_back: PhasePair, two_back: PhasePair) -> bool {
    cur.a && !cur.b && !one_back.a && !one_back.b && !two_back.a && two_back.b
}

/// The one three-sample sequence that decodes as a forward step:
/// two-back (a=true, b=false), one-back (false, false), current (false, true).
pub open spec fn increment_seen(cur: PhasePair, one_back: PhasePair, two_back: PhasePair) -> bool {
    !cur.a && cur.b && !one_back.a && !one_back.b && two_back.a && !two_back.b
}

/// The transition table as a whole: which action a three-sample window
/// produces.
pub open spec fn classify_spec(cur: PhasePair, one_back: PhasePair, two_back: PhasePair) -> Action {
    if decrement_seen(cur, one_back, two_back) {
        Action::Decrement
    } else if increment_seen(cur, one_back, two_back) {
        Action::Increment
    } else {
        Action::NoChange
    }
}

/// Decode one three-sample window of phase pairs into an action.
pub fn classify(cur: PhasePair, one_back: PhasePair, two_back: PhasePair) -> (r: Action)
    ensures
        r == classify_spec(cur, one_back, two_back),
{
    if (cur.a && !cur.b) && (!one_back.a && !one_back.b) && (!two_back.a && two_back.b) {
        Action::Decrement
    } else if (!cur.a && cur.b) && (!one_back.a && !one_back.b) && (two_back.a && !two_back.b) {
        Action::Increment
    } else {
        Action::NoChange
    }
}

/// The position counter after one decode, wrapping silently at the ends
/// of the signed range.
pub open spec fn next_position(
    p: i32,
    cur: PhasePair,
    one_back: PhasePair,
    two_back: PhasePair,
) -> i32 {
    if decrement_seen(cur, one_back, two_back) {
        vstd::wrapping::i32_specs::wrapping_sub(p, 1)
    } else if increment_seen(cur, one_back, two_back) {
        vstd::wrapping::i32_specs::wrapping_add(p, 1)
    } else {
        p
    }
}

/// Everything the main loop owns exclusively: the signed position and the
/// two-deep history of distinct phase states.
pub struct EncoderState {
    /// The decoded position counter.
    pub position: i32,
    /// The most recent phase pair that differed from the one before it.
    pub one_back: PhasePair,
    /// The phase pair stored before `one_back`.
    pub two_back: PhasePair,
}

/// One whole loop iteration's effect on the owned state: decode against
/// the two-deep history, reset the position when the button line does not
/// read high — with the pull-up, active-low wiring that is the pressed
/// level — and shift the history only when the sample differs from the
/// stored one-back pair.
pub open spec fn step_spec(s: EncoderState, button_high: bool, cur: PhasePair) -> EncoderState {
    EncoderState {
        position: if !button_high {
            0
        } else {
            next_position(s.position, cur, s.one_back, s.two_back)
        },
        one_back: if cur != s.one_back {
            cur
        } else {
            s.one_back
        },
        two_back: if cur != s.one_back {
            s.one_back
        } else {
            s.two_back
        },
    }
}

impl EncoderState {
    /// Startup state: position zero, history filled with high samples, the
    /// idle level of the phase lines.
    pub fn new() -> (r: EncoderState)
        ensures
            r.position == 0,
            r.one_back == (PhasePair { a: true, b: true }),
            r.two_back == (PhasePair { a: true, b: true }),
    {
        EncoderState {
            position: 0,
            one_back: PhasePair { a: true, b: true },
            two_back: PhasePair { a: true, b: true },
        }
    }

    /// One loop iteration over fresh samples: decode, button reset, then
    /// history shift. The button reset is unconditional and overrides
    /// whatever the decode did in the same pass.
    pub fn step(&mut self, button_high: bool, cur: PhasePair)
        ensures
            *final(self) == step_spec(*old(self), button_high, cur),
    {
        let action = classify(cur, self.one_back, self.two_back);
        match action {
            Action::Decrement => {
                self.position = self.position.wrapping_sub(1);
            },
            Action::Increment => {
                self.position = self.position.wrapping_add(1);
            },
            Action::NoChange => {},
        }
        if !button_high {
            self.position = 0;
        }
        if cur.a != self.one_back.a || cur.b != self.one_back.b {
            self.two_back = self.one_back;
            self.one_back = cur;
        }
    }
}

/// Per iteration the position moves by at most one, and only on the two
/// accepted three-sample sequences; every other window leaves it alone.
/// (At the two ends of the signed range the counter wraps instead, so
/// those two positions are excluded here.)
pub proof fn lemma_position_moves_by_at_most_one(
    p: i32,
    cur: PhasePair,
    one_back: PhasePair,
    two_back: PhasePair,
)
    requires
        i32::MIN < p < i32::MAX,
    ensures
        -1 <= next_position(p, cur, one_back, two_back) - p <= 1,
        decrement_seen(cur, one_back, two_back) ==> next_position(p, cur, one_back, two_back) == p
            - 1,
        increment_seen(cur, one_back, two_back) ==> next_position(p, cur, one_back, two_back) == p
            + 1,
        !decrement_seen(cur, one_back, two_back) && !increment_seen(cur, one_back, two_back)
            ==> next_position(p, cur, one_back, two_back) == p,
{
}

/// The same bound over a whole iteration with the button line high, the
/// level at which no reset fires: one pass moves the position by at most
/// one, and moves it at all only on the two accepted sequences.
pub proof fn lemma_step_moves_by_at_most_one(s: EncoderState, cur: PhasePair)
    requires
        i32::MIN < s.position < i32::MAX,
    ensures
        -1 <= step_spec(s, true, cur).position - s.position <= 1,
        step_spec(s, true, cur).position != s.position ==> (decrement_seen(
            cur,
            s.one_back,
            s.two_back,
        ) || increment_seen(cur, s.one_back, s.two_back)),
{
    lemma_position_moves_by_at_most_one(s.position, cur, s.one_back, s.two_back);
}

/// A window can match at most one direction, so no sequence both
/// increments and decrements.
pub proof fn lemma_directions_exclusive(cur: PhasePair, one_back: PhasePair, two_back: PhasePair)
    ensures
        !(decrement_seen(cur, one_back, two_back) && increment_seen(cur, one_back, two_back)),
{
}

/// A button sample that is not high forces the position to zero on that
/// same iteration, whatever the decode concluded.
pub proof fn lemma_button_not_high_resets(s: EncoderState, cur: PhasePair)
    ensures
        step_spec(s, false, cur).position == 0,
{
}

/// Repeating the phase sample already stored as one-back changes nothing:
/// the history never shifts, and with the button line high the position
/// holds too, however many times the sample repeats.
pub proof fn lemma_identical_samples_idle(s: EncoderState, button_high: bool, cur: PhasePair)
    requires
        cur == s.one_back,
    ensures
        step_spec(s, button_high, cur).one_back == s.one_back,
        step_spec(s, button_high, cur).two_back == s.two_back,
        button_high ==> step_spec(s, button_high, cur) == s,
{
}

} // verus!
