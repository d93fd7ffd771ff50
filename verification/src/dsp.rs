use core::ops::Mul;
use core::ops::Neg;
use vstd::prelude::*;
use vstd::std_specs::ops::MulSpec;
use vstd::std_specs::ops::NegSpec;

verus! {

/// How many leading positions of an output block are written when a processor
/// is handed `input_len` samples: the shorter of the two lengths. The output
/// is the hard bound, and no position without an input sample is touched.
pub open spec fn reach(input_len: nat, output_len: nat) -> nat {
    if input_len <= output_len {
        input_len
    } else {
        output_len
    }
}

/// `after` has the length of `before` and, from position `from` on, its samples.
pub open spec fn kept_from<S>(from: nat, before: Seq<S>, after: Seq<S>) -> bool {
    &&& after.len() == before.len()
    &&& forall|i: int| from <= i < before.len() ==> #[trigger] after[i] == before[i]
}

/// The first `upto` samples of `after` are those of `input`, each multiplied
/// by `factor`.
pub open spec fn scaled_upto<S: Mul<Output = S>>(
    upto: nat,
    input: Seq<S>,
    factor: S,
    after: Seq<S>,
) -> bool {
    forall|i: int| 0 <= i < upto ==> #[trigger] after[i] == input[i].mul_spec(factor)
}

/// A component of a signal chain that turns one block of samples into another.
///
/// `process` writes into a block that the caller owns and never changes its
/// length. Blocks of any two lengths are taken, and a mismatch is never an
/// error: only the first `reach(input.len(), output.len())` input samples
/// count, so a processor can ask something of its own settings and of those
/// samples, and of nothing else. A processor that was ready for one block is
/// ready for the next.
pub trait AudioProcessor<S> {
    /// Whether this processor can run as it is set up now.
    spec fn ready(&self) -> bool;

    /// Whether this processor can take `sample` as it is set up now.
    spec fn admits(&self, sample: S) -> bool;

    /// Whether `after` is what this processor makes of an output block that
    /// held `before` when it is handed `input`.
    spec fn renders(&self, input: Seq<S>, before: Seq<S>, after: Seq<S>) -> bool;

    /// Processes one block of samples: reads `input`, writes into `output`.
    fn process(&mut self, input: &[S], output: &mut [S])
        requires
            old(self).ready(),
            forall|i: int|
                0 <= i < reach(input@.len(), old(output)@.len()) ==> old(self).admits(
                    #[trigger] input@[i],
                ),
        ensures
            final(self).ready(),
            final(output)@.len() == old(output)@.len(),
            old(self).renders(input@, old(output)@, final(output)@),
    ;
}

/// A processor that scales every sample by a gain and can flip its phase.
pub struct GainProcessor<S> {
    /// The volume multiplier.
    pub gain: S,
    /// When set, samples are multiplied by the negated gain.
    pub invert: bool,
}

impl<S: Copy + Mul<Output = S> + Neg<Output = S>> GainProcessor<S> {
    /// The factor that every sample is multiplied by: the gain, negated when
    /// the phase is inverted.
    pub open spec fn multiplier(&self) -> S {
        if self.invert {
            self.gain.neg_spec()
        } else {
            self.gain
        }
    }

    /// Whether a call of `process` may end up multiplying by `factor`. Where
    /// negating an `S` is known to give `neg_spec`, or nothing is negated,
    /// this holds of `multiplier()` alone; else an inverted gain may come out
    /// as any value.
    pub open spec fn may_scale_by(&self, factor: S) -> bool {
        (self.invert && !S::obeys_neg_spec()) || factor == self.multiplier()
    }

    /// Whether the operators of `S` that this processor uses are known to
    /// give `mul_spec` and `neg_spec`, so that what `process` writes is a
    /// function of the settings and the input. It holds of the integer types;
    /// of floating point types it is not known.
    pub open spec fn exact(&self) -> bool {
        S::obeys_mul_spec() && (self.invert ==> S::obeys_neg_spec())
    }

    /// Builds a processor from its two settings. Every gain is taken as it
    /// is: nothing is validated.
    pub fn new(gain: S, invert: bool) -> (p: Self)
        ensures
            p.gain == gain,
            p.invert == invert,
    {
        Self { gain, invert }
    }
}

impl<S: Copy + Mul<Output = S> + Neg<Output = S>> AudioProcessor<S> for GainProcessor<S> {
    /// The processor is ready when its gain can be negated, if it has to be.
    open spec fn ready(&self) -> bool {
        self.invert ==> self.gain.neg_req()
    }

    /// A sample is admitted when it can be multiplied by every factor that
    /// `process` may end up with.
    open spec fn admits(&self, sample: S) -> bool {
        forall|factor: S| self.may_scale_by(factor) ==> #[trigger] sample.mul_req(factor)
    }

    /// Positions past the reach keep their samples. Where the arithmetic is
    /// exact, each position within the reach holds its input sample times the
    /// multiplier.
    open spec fn renders(&self, input: Seq<S>, before: Seq<S>, after: Seq<S>) -> bool {
        &&& kept_from(reach(input.len(), before.len()), before, after)
        &&& self.exact() ==> scaled_upto(
            reach(input.len(), before.len()),
            input,
            self.multiplier(),
            after,
        )
    }

    /// Multiplies each input sample by the multiplier and stores it at the
    /// same position of `output`, as far as both blocks reach. The settings
    /// are read anew on every call and left as they are.
    fn process(&mut self, input: &[S], output: &mut [S])
        ensures
            *final(self) == *old(self),
    {
        let multiplier = if self.invert {
            self.gain.neg()
        } else {
            self.gain
        };
        let n: usize = if input.len() <= output.len() {
            input.len()
        } else {
            output.len()
        };
        let mut i: usize = 0;
        while i < n
            invariant
                i <= n,
                n == reach(input@.len(), old(output)@.len()),
                output@.len() == old(output)@.len(),
                *self == *old(self),
                self.may_scale_by(multiplier),
                forall|k: int| 0 <= k < n ==> self.admits(#[trigger] input@[k]),
                S::obeys_mul_spec() ==> scaled_upto(i as nat, input@, multiplier, output@),
                kept_from(i as nat, old(output)@, output@),
            decreases n - i,
        {
            output[i] = input[i].mul(multiplier);
            i += 1;
        }
    }
}

} // verus!
