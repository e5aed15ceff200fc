//! The animation frame generator: a stateful, single-use sequence of
//! brightness values that carries a transition from a current value to
//! a desired one in a fixed number of frames.
//!
//! The generator owns the integer state machine: how many frames are
//! left, when the sequence ends, and that the last frame is exactly
//! the desired value. The interpolated value of an intermediate frame
//! depends on the easing curve, so the generator hands the caller an
//! [`InterpolationRequest`] and takes the computed value back through
//! [`AnimationIter::apply_frame`].

pub mod easing;

use vstd::prelude::*;

verus! {

broadcast use vstd::seq::group_seq_axioms;

/// A transition from `current` towards `desired`, emitting exactly
/// `frame_count` frames.
#[derive(Debug)]
pub struct AnimationIter {
    /// The value of the most recent frame.
    pub current: u16,
    /// How many frames are still to be emitted.
    pub frame_count: usize,
    /// The value the final frame carries.
    pub desired: u16,
    /// The device's maximum brightness, for interpolation.
    pub max: u16,
}

/// What the generator asks of the next frame.
#[derive(Debug)]
pub enum Step {
    /// The sequence is exhausted; nothing more is emitted.
    Finished,
    /// The final frame: exactly the desired value.
    Last(u16),
    /// An intermediate frame: the caller interpolates from this state
    /// and hands the value to [`AnimationIter::apply_frame`].
    Interpolate(InterpolationRequest),
}

/// The state an intermediate frame is interpolated from.
#[derive(Debug, Clone, Copy, PartialEq, Eq, Structural)]
pub struct InterpolationRequest {
    pub current: u16,
    pub desired: u16,
    pub max: u16,
    pub remaining: usize,
}

/// The frames a full run emits from a state with `remaining` frames:
/// one interpolated value per intermediate frame (taken from
/// `answers`, in order), and the desired value, marked last, at the
/// end. The shape of the run does not depend on the answers: exactly
/// `remaining` frames come out whatever the easing computes.
pub open spec fn spec_run(remaining: nat, desired: u16, answers: Seq<u16>) -> Seq<(u16, bool)>
    decreases remaining,
{
    if remaining == 0 {
        Seq::empty()
    } else if remaining == 1 {
        seq![(desired, true)]
    } else {
        seq![(answers[0], false)] + spec_run(
            (remaining - 1) as nat,
            desired,
            answers.subrange(1, answers.len() as int),
        )
    }
}

/// The exact-size law: a run with `remaining` frames emits exactly
/// `remaining` values, and when any are emitted the final one is
/// exactly `(desired, true)` — whatever values the easing computed
/// for the intermediate frames.
pub proof fn lemma_run_exact_size(remaining: nat, desired: u16, answers: Seq<u16>)
    requires
        answers.len() + 1 >= remaining,
    ensures
        spec_run(remaining, desired, answers).len() == remaining,
        remaining >= 1 ==> spec_run(remaining, desired, answers)[remaining - 1] == (desired, true),
    decreases remaining,
{
    if remaining >= 2 {
        let rest = answers.subrange(1, answers.len() as int);
        lemma_run_exact_size((remaining - 1) as nat, desired, rest);
        assert(spec_run(remaining, desired, answers)[remaining - 1] == spec_run(
            (remaining - 1) as nat,
            desired,
            rest,
        )[remaining - 2]);
    }
}

impl AnimationIter {
    /// A generator from `current` to `desired` over `frame_count`
    /// frames; at least one frame is always emitted.
    pub fn new(pair: (u16, u16), max: u16, frame_count: usize) -> (r: Self)
        requires
            frame_count >= 1,
        ensures
            r.current == pair.0,
            r.desired == pair.1,
            r.max == max,
            r.frame_count == frame_count,
    {
        let (current, desired) = pair;
        Self { current, frame_count, desired, max }
    }

    /// How many frames are still to be emitted.
    pub fn len(&self) -> (r: usize)
        ensures
            r == self.frame_count,
    {
        self.frame_count
    }

    /// Advances the state machine one step. An intermediate frame
    /// leaves the state untouched until the interpolated value comes
    /// back through [`AnimationIter::apply_frame`].
    pub fn next_step(&mut self) -> (r: Step)
        ensures
            old(self).frame_count == 0 ==> (r is Finished && *final(self) == *old(self)),
            old(self).frame_count == 1 ==> (r == Step::Last(old(self).desired)
                && final(self).frame_count == 0
                && final(self).current == old(self).desired
                && final(self).desired == old(self).desired
                && final(self).max == old(self).max),
            old(self).frame_count >= 2 ==> (r == Step::Interpolate(
                InterpolationRequest {
                    current: old(self).current,
                    desired: old(self).desired,
                    max: old(self).max,
                    remaining: old(self).frame_count,
                },
            ) && *final(self) == *old(self)),
    {
        if self.frame_count == 0 {
            Step::Finished
        } else if self.frame_count == 1 {
            self.current = self.desired;
            self.frame_count = 0;
            Step::Last(self.desired)
        } else {
            Step::Interpolate(
                InterpolationRequest {
                    current: self.current,
                    desired: self.desired,
                    max: self.max,
                    remaining: self.frame_count,
                },
            )
        }
    }

    /// Accepts the interpolated value of an intermediate frame: the
    /// state moves to it and one frame is spent. The emitted frame is
    /// the value, not marked last.
    pub fn apply_frame(&mut self, value: u16) -> (r: (u16, bool))
        requires
            old(self).frame_count >= 2,
        ensures
            final(self).current == value,
            final(self).frame_count == old(self).frame_count - 1,
            final(self).desired == old(self).desired,
            final(self).max == old(self).max,
            r == (value, false),
    {
        self.current = value;
        self.frame_count = self.frame_count - 1;
        (value, false)
    }

    /// Drives the generator to exhaustion with precomputed
    /// interpolation answers: the emitted frames are exactly
    /// [`spec_run`] of the starting state.
    pub fn run_with_answers(&mut self, answers: &Vec<u16>) -> (r: Vec<(u16, bool)>)
        requires
            answers@.len() + 1 >= old(self).frame_count,
        ensures
            r@ == spec_run(old(self).frame_count as nat, old(self).desired, answers@),
            final(self).frame_count == 0,
    {
        let ghost fc0 = self.frame_count as nat;
        let ghost desired0 = self.desired;
        let mut out: Vec<(u16, bool)> = Vec::new();
        let mut used: usize = 0;
        let total_answers = answers.len();
        proof {
            assert(answers@.subrange(0, answers@.len() as int) =~= answers@);
            assert(out@ + spec_run(fc0, desired0, answers@) =~= spec_run(fc0, desired0, answers@));
        }
        loop
            invariant
                used <= answers@.len(),
                answers@.len() == total_answers,
                fc0 == old(self).frame_count as nat,
                desired0 == old(self).desired,
                self.desired == desired0,
                answers@.len() - used + 1 >= self.frame_count,
                spec_run(fc0, desired0, answers@) == out@ + spec_run(
                    self.frame_count as nat,
                    desired0,
                    answers@.subrange(used as int, answers@.len() as int),
                ),
            decreases self.frame_count,
        {
            let ghost fc_here = self.frame_count as nat;
            let ghost suffix = answers@.subrange(used as int, answers@.len() as int);
            match self.next_step() {
                Step::Finished => {
                    proof {
                        assert(out@ + spec_run(0, desired0, suffix) =~= out@);
                    }
                    return out;
                },
                Step::Last(v) => {
                    let ghost pre = out@;
                    out.push((v, true));
                    proof {
                        assert(spec_run(1, desired0, suffix) =~= seq![(desired0, true)]);
                        assert(pre + spec_run(1, desired0, suffix) =~= out@);
                        assert(out@ + spec_run(0, desired0, suffix) =~= out@);
                    }
                },
                Step::Interpolate(req) => {
                    proof {
                        assert(self.frame_count >= 2);
                        assert(used < answers@.len());
                    }
                    let v = answers[used];
                    used = used + 1;
                    let item = self.apply_frame(v);
                    let ghost pre = out@;
                    out.push(item);
                    proof {
                        let ghost suffix2 = answers@.subrange(used as int, answers@.len() as int);
                        assert(suffix[0] == v);
                        assert(suffix.subrange(1, suffix.len() as int) =~= suffix2);
                        assert(spec_run(fc_here, desired0, suffix) == seq![(v, false)] + spec_run(
                            (fc_here - 1) as nat,
                            desired0,
                            suffix2,
                        ));
                        assert(pre + (seq![(v, false)] + spec_run(
                            (fc_here - 1) as nat,
                            desired0,
                            suffix2,
                        )) =~= out@ + spec_run((fc_here - 1) as nat, desired0, suffix2));
                    }
                },
            }
        }
    }
}

} // verus!
