//! The downmixer: deterministic reduction of an interleaved multi-channel
//! frame batch to mono.
//!
//! A batch of `C`-channel interleaved samples is grouped into consecutive
//! runs of `C` samples; each group collapses to one mono sample, the group's
//! sum divided by `C` in 32-bit floating point. A mono batch passes through
//! unchanged. Samples are carried as the bit patterns of their 32-bit
//! floats, which the verified core never takes apart: the grouping, the
//! fold order of each group's sum, and the division are all verified, and
//! only the three scalar IEEE-754 operations — addition, division, and
//! integer conversion — are trusted calls whose values are named.

use rustc_apfloat::ieee::Single;
use rustc_apfloat::Float;
use vstd::prelude::*;

verus! {

/// What IEEE-754 single-precision addition of the floats two bit patterns
/// spell comes to, as the resulting float's bit pattern. Uninterpreted:
/// Verus does not model floating-point arithmetic, so the value is named
/// here and computed only by `add_bits`.
pub uninterp spec fn f32_add_bits(a: u32, b: u32) -> u32;

/// What IEEE-754 single-precision division of the float `a` spells by the
/// float `b` spells comes to, as a bit pattern. Uninterpreted, computed
/// only by `div_bits`.
pub uninterp spec fn f32_div_bits(a: u32, b: u32) -> u32;

/// The bit pattern of the 32-bit float nearest to the unsigned integer
/// `n` (ties to even). Uninterpreted, computed only by `uint_bits`.
pub uninterp spec fn f32_of_uint(n: usize) -> u32;

/// Relies on `rustc_apfloat::ieee::Single`'s `Add` operator — a pure
/// software implementation of IEEE-754 single precision, rounding to
/// nearest even — with `from_bits`/`to_bits` converting at the boundary.
/// Deterministic, no panic for any bit pattern; named by [`f32_add_bits`].
#[verifier::external_body]
fn add_bits(a: u32, b: u32) -> (sum: u32)
    ensures
        sum == f32_add_bits(a, b),
{
    (Single::from_bits(a as u128) + Single::from_bits(b as u128)).value.to_bits() as u32
}

/// Relies on `rustc_apfloat::ieee::Single`'s `Div` operator, as
/// [`add_bits`] relies on its `Add`; named by [`f32_div_bits`].
#[verifier::external_body]
fn div_bits(a: u32, b: u32) -> (quotient: u32)
    ensures
        quotient == f32_div_bits(a, b),
{
    (Single::from_bits(a as u128) / Single::from_bits(b as u128)).value.to_bits() as u32
}

/// Relies on `rustc_apfloat::Float::from_u128` (round to nearest even) to
/// render an unsigned integer as the 32-bit float it is closest to; named
/// by [`f32_of_uint`].
#[verifier::external_body]
fn uint_bits(n: usize) -> (converted: u32)
    ensures
        converted == f32_of_uint(n),
{
    Single::from_u128(n as u128).value.to_bits() as u32
}

/// The running IEEE-754 single-precision sum of the group's samples, taken
/// in order and starting from positive zero (bit pattern 0).
pub open spec fn sum_bits(group: Seq<u32>) -> u32
    decreases group.len(),
{
    if group.len() == 0 {
        0
    } else {
        f32_add_bits(sum_bits(group.drop_last()), group.last())
    }
}

/// What the single-precision mix of one group comes to: the sum of the
/// group's samples, each read as the 32-bit float its bit pattern spells,
/// taken in order and divided by `channels`, as a bit pattern. For a full
/// group of `channels` samples this is the group's arithmetic mean.
pub open spec fn frame_mix(group: Seq<u32>, channels: usize) -> u32 {
    f32_div_bits(sum_bits(group), f32_of_uint(channels))
}

/// Mix one group to a single mono sample: fold the group through the
/// trusted single-precision addition in order, then divide by the channel
/// count — exactly [`frame_mix`].
fn mix_group(group: &Vec<u32>, channels: usize) -> (mixed: u32)
    requires
        1 <= channels,
    ensures
        mixed == frame_mix(group@, channels),
{
    let mut sum: u32 = 0;
    proof {
        assert(group@.take(0) =~= Seq::<u32>::empty());
    }
    let mut k: usize = 0;
    while k < group.len()
        invariant
            k <= group@.len(),
            sum == sum_bits(group@.take(k as int)),
        decreases group@.len() - k,
    {
        sum = add_bits(sum, group[k]);
        k = k + 1;
        proof {
            assert(group@.take(k as int).drop_last() =~= group@.take(k as int - 1));
            assert(group@.take(k as int).last() == group@[k as int - 1]);
        }
    }
    proof {
        assert(group@.take(group@.len() as int) =~= group@);
    }
    div_bits(sum, uint_bits(channels))
}

/// The mono stream that downmixing `samples` as `channels`-channel
/// interleaved audio yields: the identity for mono input, else one
/// [`frame_mix`] sample per group of `channels` input samples, in time
/// order, the trailing group shorter when the batch length is not a whole
/// number of groups.
pub open spec fn downmix_spec(samples: Seq<u32>, channels: usize) -> Seq<u32>
    recommends
        1 <= channels,
    decreases samples.len(),
{
    if channels == 0 {
        Seq::empty()
    } else if channels == 1 {
        samples
    } else if samples.len() == 0 {
        Seq::empty()
    } else if samples.len() <= channels {
        seq![frame_mix(samples, channels)]
    } else {
        seq![frame_mix(samples.take(channels as int), channels)] + downmix_spec(
            samples.skip(channels as int),
            channels,
        )
    }
}

/// Downmix one interleaved batch to mono.
///
/// Mono input is returned unchanged; otherwise each consecutive group of
/// `channels` samples becomes its [`frame_mix`], in original time order.
pub fn downmix(samples: &Vec<u32>, channels: usize) -> (mono: Vec<u32>)
    requires
        1 <= channels,
    ensures
        mono@ == downmix_spec(samples@, channels),
{
    if channels == 1 {
        let mut mono: Vec<u32> = Vec::new();
        let mut i: usize = 0;
        while i < samples.len()
            invariant
                i <= samples@.len(),
                mono@ == samples@.take(i as int),
            decreases samples@.len() - i,
        {
            mono.push(samples[i]);
            i = i + 1;
            proof {
                assert(mono@ =~= samples@.take(i as int));
            }
        }
        proof {
            assert(mono@ =~= samples@);
        }
        mono
    } else {
        let mut mono: Vec<u32> = Vec::new();
        let mut i: usize = 0;
        proof {
            assert(samples@.skip(0) =~= samples@);
            assert(mono@ + downmix_spec(samples@, channels) =~= downmix_spec(
                samples@,
                channels,
            ));
        }
        while i < samples.len()
            invariant
                2 <= channels,
                i <= samples@.len(),
                downmix_spec(samples@, channels) == mono@ + downmix_spec(
                    samples@.skip(i as int),
                    channels,
                ),
            decreases samples@.len() - i,
        {
            let ghost before: int = i as int;
            let mut group: Vec<u32> = Vec::new();
            proof {
                assert(group@ =~= samples@.subrange(i as int, i as int));
            }
            let mut j: usize = i;
            while j < samples.len() && j - i < channels
                invariant
                    i <= j <= samples@.len(),
                    j - i <= channels,
                    group@ == samples@.subrange(i as int, j as int),
                decreases samples@.len() - j,
            {
                group.push(samples[j]);
                j = j + 1;
                proof {
                    assert(group@ =~= samples@.subrange(i as int, j as int));
                }
            }
            let mixed = mix_group(&group, channels);
            mono.push(mixed);
            proof {
                lemma_downmix_spec_step(samples@, channels, before);
                if before + channels < samples@.len() {
                    assert(j == before + channels);
                    assert(downmix_spec(samples@, channels) =~= mono@ + downmix_spec(
                        samples@.skip(j as int),
                        channels,
                    ));
                } else {
                    assert(j == samples@.len());
                    assert(samples@.skip(j as int) =~= Seq::<u32>::empty());
                    assert(downmix_spec(samples@.skip(j as int), channels) =~= Seq::<
                        u32,
                    >::empty());
                    assert(downmix_spec(samples@, channels) =~= mono@ + downmix_spec(
                        samples@.skip(j as int),
                        channels,
                    ));
                }
            }
            i = j;
        }
        proof {
            assert(samples@.skip(i as int) =~= Seq::<u32>::empty());
            assert(mono@ + Seq::<u32>::empty() =~= mono@);
        }
        mono
    }
}

/// Mono input passes through the downmixer unchanged: for one channel the
/// output stream is the input stream itself.
pub proof fn lemma_downmix_mono_identity(samples: Seq<u32>)
    ensures
        downmix_spec(samples, 1) == samples,
{
}

/// For interleaved input that is a whole number of `channels`-sized groups,
/// the mono output has exactly one sample per group — its length is the
/// input length divided by the channel count — and the `g`-th output sample
/// is the [`frame_mix`] — the single-precision arithmetic mean — of the
/// `g`-th group of `channels` consecutive input samples.
pub proof fn lemma_downmix_divisible(samples: Seq<u32>, channels: usize, groups: nat)
    requires
        2 <= channels,
        samples.len() == groups * channels,
    ensures
        downmix_spec(samples, channels).len() == groups,
        forall|g: int|
            0 <= g < groups ==> downmix_spec(samples, channels)[g] == frame_mix(
                samples.subrange(g * channels, (g + 1) * channels),
                channels,
            ),
    decreases samples.len(),
{
    let out = downmix_spec(samples, channels);
    if groups == 0 {
        assert(samples.len() == 0);
    } else if groups == 1 {
        assert(samples.len() == channels) by (nonlinear_arith)
            requires
                groups == 1,
                samples.len() == groups * channels,
        ;
        assert(out =~= seq![frame_mix(samples, channels)]);
        assert(samples.subrange(0, channels as int) =~= samples);
    } else {
        assert(samples.len() > channels) by (nonlinear_arith)
            requires
                groups >= 2,
                channels >= 2,
                samples.len() == groups * channels,
        ;
        let head = samples.take(channels as int);
        let tail = samples.skip(channels as int);
        assert(tail.len() == (groups - 1) * channels) by (nonlinear_arith)
            requires
                tail.len() == samples.len() - channels,
                samples.len() == groups * channels,
                groups >= 1,
        ;
        lemma_downmix_divisible(tail, channels, (groups - 1) as nat);
        assert(out == seq![frame_mix(head, channels)] + downmix_spec(tail, channels));
        assert(out.len() == groups);
        assert forall|g: int| 0 <= g < groups implies out[g] == frame_mix(
            samples.subrange(g * channels, (g + 1) * channels),
            channels,
        ) by {
            let c = channels as int;
            assert(0 <= g * c && (g + 1) * c == g * c + c && (g - 1) * c == g * c - c && (g + 1)
                * c <= samples.len()) by (nonlinear_arith)
                requires
                    0 <= g < groups,
                    c >= 2,
                    samples.len() == groups * c,
            ;
            if g == 0 {
                assert(head =~= samples.subrange(0 * c, (0 + 1) * c));
            } else {
                assert(out[g] == downmix_spec(tail, channels)[g - 1]);
                assert(downmix_spec(tail, channels)[g - 1] == frame_mix(
                    tail.subrange((g - 1) * c, ((g - 1) + 1) * c),
                    channels,
                ));
                assert(tail.subrange((g - 1) * c, g * c) =~= samples.subrange(
                    g * c,
                    (g + 1) * c,
                ));
            }
        }
    }
}

/// Unfolding of [`downmix_spec`] at group boundary `at`: the mix of the
/// group that starts at `at` is the next mono sample, and the rest of the
/// stream continues one full group later.
proof fn lemma_downmix_spec_step(samples: Seq<u32>, channels: usize, at: int)
    requires
        2 <= channels,
        0 <= at < samples.len(),
    ensures
        at + channels < samples.len() ==> downmix_spec(samples.skip(at), channels) == seq![
            frame_mix(samples.subrange(at, at + channels), channels),
        ] + downmix_spec(samples.skip(at + channels), channels),
        at + channels >= samples.len() ==> downmix_spec(samples.skip(at), channels) == seq![
            frame_mix(samples.subrange(at, samples.len() as int), channels),
        ],
{
    let rest = samples.skip(at);
    if at + channels < samples.len() {
        assert(rest.len() > channels);
        assert(rest.take(channels as int) =~= samples.subrange(at, at + channels));
        assert(rest.skip(channels as int) =~= samples.skip(at + channels));
    } else {
        assert(rest.len() <= channels);
        assert(rest.len() > 0);
        assert(rest =~= samples.subrange(at, samples.len() as int));
    }
}

} // verus!
