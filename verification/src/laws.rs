use crate::dsp::reach;
use crate::dsp::AudioProcessor;
use crate::dsp::GainProcessor;
use core::ops::Mul;
use core::ops::Neg;
use vstd::prelude::*;
use vstd::std_specs::ops::MulSpec;
use vstd::std_specs::ops::NegSpec;

verus! {

/// `one` is a right identity of multiplication: a sample times `one` is the
/// sample itself.
pub open spec fn is_unit<S: Mul<Output = S>>(one: S) -> bool {
    forall|x: S| #[trigger] x.mul_spec(one) == x
}

/// A sign can be moved out of a product: `x * -g` is `-(x * g)`.
pub open spec fn sign_moves_out<S: Mul<Output = S> + Neg<Output = S>>() -> bool {
    forall|x: S, g: S| #[trigger] x.mul_spec(g.neg_spec()) == x.mul_spec(g).neg_spec()
}

/// The reach is the shorter of the two lengths: it is bounded by both and
/// equal to one of them.
pub proof fn reach_is_the_shorter_length(input_len: nat, output_len: nat)
    ensures
        reach(input_len, output_len) <= input_len,
        reach(input_len, output_len) <= output_len,
        reach(input_len, output_len) == input_len || reach(input_len, output_len) == output_len,
        reach(input_len, output_len) == reach(output_len, input_len),
{
}

/// With a gain that is a unit of multiplication and no inversion, every
/// position that has an input sample holds that sample again.
pub proof fn unit_gain_passes_through<S: Copy + Mul<Output = S> + Neg<Output = S>>(
    p: GainProcessor<S>,
    input: Seq<S>,
    before: Seq<S>,
    after: Seq<S>,
)
    requires
        S::obeys_mul_spec(),
        is_unit(p.gain),
        !p.invert,
        p.renders(input, before, after),
    ensures
        forall|i: int| 0 <= i < reach(input.len(), before.len()) ==> #[trigger] after[i] == input[i],
{
}

/// With a unit gain and inversion, every position that has an input sample
/// holds the negated sample, as long as a sign can be moved out of a product.
pub proof fn inverted_unit_gain_negates<S: Copy + Mul<Output = S> + Neg<Output = S>>(
    p: GainProcessor<S>,
    input: Seq<S>,
    before: Seq<S>,
    after: Seq<S>,
)
    requires
        S::obeys_mul_spec(),
        S::obeys_neg_spec(),
        is_unit(p.gain),
        sign_moves_out::<S>(),
        p.invert,
        p.renders(input, before, after),
    ensures
        forall|i: int|
            0 <= i < reach(input.len(), before.len()) ==> #[trigger] after[i]
                == input[i].neg_spec(),
{
    assert forall|i: int| 0 <= i < reach(input.len(), before.len()) implies #[trigger] after[i]
        == input[i].neg_spec() by {
        assert(after[i] == input[i].mul_spec(p.gain.neg_spec()));
        assert(input[i].mul_spec(p.gain.neg_spec()) == input[i].mul_spec(p.gain).neg_spec());
        assert(input[i].mul_spec(p.gain) == input[i]);
    }
}

/// Without inversion, every position that has an input sample holds that
/// sample times the gain.
pub proof fn plain_gain_scales<S: Copy + Mul<Output = S> + Neg<Output = S>>(
    p: GainProcessor<S>,
    input: Seq<S>,
    before: Seq<S>,
    after: Seq<S>,
)
    requires
        S::obeys_mul_spec(),
        !p.invert,
        p.renders(input, before, after),
    ensures
        forall|i: int|
            0 <= i < reach(input.len(), before.len()) ==> #[trigger] after[i] == input[i].mul_spec(
                p.gain,
            ),
{
}

/// With inversion, every position that has an input sample holds that sample
/// times the negated gain.
pub proof fn inverted_gain_scales_by_negated_gain<S: Copy + Mul<Output = S> + Neg<Output = S>>(
    p: GainProcessor<S>,
    input: Seq<S>,
    before: Seq<S>,
    after: Seq<S>,
)
    requires
        S::obeys_mul_spec(),
        S::obeys_neg_spec(),
        p.invert,
        p.renders(input, before, after),
    ensures
        forall|i: int|
            0 <= i < reach(input.len(), before.len()) ==> #[trigger] after[i] == input[i].mul_spec(
                p.gain.neg_spec(),
            ),
{
}

/// The output bounds the block. When it is shorter than the input, all of it
/// is written, from the input samples at the same positions, and it stays as
/// long as it was. When it is longer, what lies past the input stays as it was.
/// This holds whatever the arithmetic of `S` does.
pub proof fn output_bounds_the_block<S: Copy + Mul<Output = S> + Neg<Output = S>>(
    p: GainProcessor<S>,
    input: Seq<S>,
    before: Seq<S>,
    after: Seq<S>,
)
    requires
        p.renders(input, before, after),
    ensures
        after.len() == before.len(),
        forall|i: int| input.len() <= i < before.len() ==> #[trigger] after[i] == before[i],
        p.exact() && before.len() < input.len() ==> after =~= Seq::new(
            before.len(),
            |i: int| input[i].mul_spec(p.multiplier()),
        ),
{
}

/// Two processors with the same settings make the same output of the same
/// input and the same output block, wherever the arithmetic of `S` is exact.
pub proof fn same_settings_same_output<S: Copy + Mul<Output = S> + Neg<Output = S>>(
    p: GainProcessor<S>,
    q: GainProcessor<S>,
    input: Seq<S>,
    before: Seq<S>,
    first: Seq<S>,
    second: Seq<S>,
)
    requires
        p.exact(),
        p.gain == q.gain,
        p.invert == q.invert,
        p.renders(input, before, first),
        q.renders(input, before, second),
    ensures
        first == second,
{
    assert forall|i: int| 0 <= i < first.len() implies first[i] == second[i] by {
        if i < reach(input.len(), before.len()) {
            assert(first[i] == input[i].mul_spec(p.multiplier()));
            assert(second[i] == input[i].mul_spec(q.multiplier()));
        } else {
            assert(first[i] == before[i]);
            assert(second[i] == before[i]);
        }
    }
    assert(first =~= second);
}

} // verus!
