//! The text in which predictions are reported.
//!
//! A prediction reads `<label>: <probability>`, the probability in decimal
//! notation with five places after the point; predictions are separated by a
//! comma and a space.

use vstd::arithmetic::div_mod::{
    lemma_fundamental_div_mod, lemma_fundamental_div_mod_converse, lemma_mod_bound,
};
use vstd::arithmetic::power2::{
    lemma2_to64, lemma2_to64_rest, lemma_pow2_pos, lemma_pow2_strictly_increases, pow2,
};
use vstd::bits::{lemma_u64_pow2_no_overflow, lemma_u64_shl_is_mul};
use vstd::prelude::*;

use crate::error::PipelineError;
use crate::labels::LabelTable;
use crate::probability::{binary_places, significand, Probability, ONE_BITS};
use crate::rank::{top_k, top_predictions, Prediction};
use crate::scan::{first_position, lemma_first_position_is};

verus! {

/// How many classes a response reports.
pub const TOP_K: usize = 3;

/// The integer nearest to `numerator / denominator`; where two are equally
/// near, the even one.
pub open spec fn nearest_ties_even(numerator: int, denominator: int) -> int {
    let quotient = numerator / denominator;
    let remainder = numerator % denominator;
    if 2 * remainder > denominator || (2 * remainder == denominator && quotient % 2 == 1) {
        quotient + 1
    } else {
        quotient
    }
}

/// The number that `bits` stands for, in units of one hundred-thousandth,
/// rounded to the nearest unit with ties to the even one.
pub open spec fn hundred_thousandths(bits: u32) -> int {
    nearest_ties_even(significand(bits) * 100_000, pow2(binary_places(bits)) as int)
}

/// The character of a decimal digit.
pub open spec fn digit_char(digit: int) -> char {
    ((48 + digit) as u8) as char
}

/// `units` hundred-thousandths in decimal notation: the whole part, a point,
/// and five places.
pub open spec fn decimal_text(units: int) -> Seq<char> {
    seq![
        digit_char(units / 100_000),
        '.',
        digit_char(units / 10_000 % 10),
        digit_char(units / 1_000 % 10),
        digit_char(units / 100 % 10),
        digit_char(units / 10 % 10),
        digit_char(units % 10),
    ]
}

/// A probability's text: its value rounded to five decimal places.
pub open spec fn probability_text(bits: u32) -> Seq<char> {
    decimal_text(hundred_thousandths(bits))
}

/// The text of one prediction.
pub open spec fn entry_text(label: Seq<char>, bits: u32) -> Seq<char> {
    label + seq![':', ' '] + probability_text(bits)
}

/// The text of the first `count` of `predictions`, in their order.
pub open spec fn listing(predictions: Seq<Prediction>, labels: Seq<Seq<char>>, count: nat) -> Seq<char>
    decreases count,
{
    if count == 0 {
        Seq::empty()
    } else {
        let last = predictions[count - 1];
        let entry = entry_text(labels[last.index as int], last.probability.bits());
        if count == 1 {
            entry
        } else {
            listing(predictions, labels, (count - 1) as nat) + seq![',', ' '] + entry
        }
    }
}

/// Position of the first of `predictions` whose class has no label, or their
/// number where each has one.
pub open spec fn first_unlabelled(predictions: Seq<Prediction>, labels: Seq<Seq<char>>) -> int {
    first_position(predictions, |prediction: Prediction| prediction.index >= labels.len())
}

/// What reporting `predictions` yields: their listing, or the lookup failure
/// of the first class that has no label.
pub open spec fn described(predictions: Seq<Prediction>, labels: Seq<Seq<char>>) -> Result<
    Seq<char>,
    PipelineError,
> {
    let stop = first_unlabelled(predictions, labels);
    if 0 <= stop < predictions.len() {
        Err(PipelineError::Lookup { index: predictions[stop].index })
    } else {
        Ok(listing(predictions, labels, predictions.len()))
    }
}

/// The nearest integer differs from the quotient by at most a half.
pub proof fn lemma_nearest_is_nearest(numerator: int, denominator: int)
    requires
        0 <= numerator,
        0 < denominator,
    ensures
        -denominator <= 2 * (nearest_ties_even(numerator, denominator) * denominator - numerator)
            <= denominator,
{
    let quotient = numerator / denominator;
    let remainder = numerator % denominator;
    lemma_fundamental_div_mod(numerator, denominator);
    lemma_mod_bound(numerator, denominator);
    assert(numerator == denominator * quotient + remainder);
    assert((quotient + 1) * denominator == quotient * denominator + denominator) by (nonlinear_arith);
    assert(quotient * denominator == denominator * quotient) by (nonlinear_arith);
}

/// The text of a probability is off by at most half a hundred-thousandth:
/// with `u` the hundred-thousandths shown and `s / 2^p` the probability,
/// `|u / 100000 - s / 2^p| <= 1 / 200000`, here multiplied out.
pub proof fn lemma_text_is_nearest(bits: u32)
    requires
        bits <= ONE_BITS,
    ensures
        -pow2(binary_places(bits)) <= 2 * (hundred_thousandths(bits) * pow2(binary_places(bits))
            - significand(bits) * 100_000) <= pow2(binary_places(bits)),
{
    lemma_pow2_pos(binary_places(bits));
    lemma_nearest_is_nearest(significand(bits) * 100_000, pow2(binary_places(bits)) as int);
}

/// A probability never rounds to more than one whole.
pub proof fn lemma_hundred_thousandths_bounded(bits: u32)
    requires
        bits <= ONE_BITS,
    ensures
        0 <= hundred_thousandths(bits) <= 100_000,
{
    let places = binary_places(bits);
    let unit = pow2(places) as int;
    let scaled = significand(bits) * 100_000;
    lemma2_to64();
    if places > 24 {
        lemma_pow2_strictly_increases(24, places);
    }
    if bits / 0x80_0000 == 127 {
        assert(bits == ONE_BITS);
        assert(places == 23);
        assert(scaled == 100_000 * unit);
        lemma_fundamental_div_mod_converse(scaled, unit, 100_000, 0);
    } else {
        assert(places >= 24);
        assert(unit >= 0x100_0000);
        assert(0 <= scaled < 100_000 * 0x100_0000);
        let quotient = scaled / unit;
        let remainder = scaled % unit;
        assert(scaled == unit * quotient + remainder && 0 <= remainder < unit) by {
            lemma_fundamental_div_mod(scaled, unit);
            lemma_mod_bound(scaled, unit);
        }
        assert(0 <= quotient < 100_000) by (nonlinear_arith)
            requires
                scaled == unit * quotient + remainder,
                0 <= remainder < unit,
                0 <= scaled < 100_000 * 0x100_0000,
                unit >= 0x100_0000,
        ;
    }
}

/// Rounds a probability to hundred-thousandths.
fn round_to_hundred_thousandths(probability: Probability) -> (out: u32)
    ensures
        out == hundred_thousandths(probability.bits()),
        out <= 100_000,
{
    let bits: u32 = probability.to_bits();
    let exponent: u32 = bits / 0x80_0000;
    let fraction: u32 = bits % 0x80_0000;
    let whole: u64 = if exponent == 0 {
        fraction as u64
    } else {
        0x80_0000 + fraction as u64
    };
    let places: u64 = if exponent == 0 {
        149
    } else {
        150 - exponent as u64
    };
    let scaled: u64 = whole * 100_000;
    proof {
        lemma_hundred_thousandths_bounded(bits);
        lemma2_to64();
        lemma2_to64_rest();
        assert(whole == significand(bits));
        assert(places == binary_places(bits));
    }
    if places >= 42 {
        proof {
            if places > 42 {
                lemma_pow2_strictly_increases(42, places as nat);
            }
            let unit = pow2(places as nat) as int;
            assert(unit >= 0x400_0000_0000);
            assert(2 * scaled < unit);
            lemma_fundamental_div_mod_converse(scaled as int, unit, 0, scaled as int);
        }
        0
    } else {
        let unit: u64 = 1u64 << places;
        proof {
            lemma_pow2_strictly_increases(places as nat, 42);
            lemma_u64_pow2_no_overflow(places as nat);
            lemma_u64_shl_is_mul(1, places);
            assert(unit == pow2(places as nat));
        }
        let quotient: u64 = scaled / unit;
        let remainder: u64 = scaled % unit;
        if 2 * remainder > unit || (2 * remainder == unit && quotient % 2 == 1) {
            (quotient + 1) as u32
        } else {
            quotient as u32
        }
    }
}

fn digit(value: u32) -> (out: char)
    requires
        value < 10,
    ensures
        out == digit_char(value as int),
{
    (48 + value as u8) as char
}

/// Appends a probability's text to `text`.
fn push_probability(text: &mut String, probability: Probability)
    ensures
        final(text)@ == old(text)@ + probability_text(probability.bits()),
{
    let units: u32 = round_to_hundred_thousandths(probability);
    let ghost before = text@;
    text.push(digit(units / 100_000));
    text.push('.');
    text.push(digit(units / 10_000 % 10));
    text.push(digit(units / 1_000 % 10));
    text.push(digit(units / 100 % 10));
    text.push(digit(units / 10 % 10));
    text.push(digit(units % 10));
    assert(text@ =~= before + decimal_text(units as int));
}

/// A probability in decimal notation with five places after the point.
pub fn format_probability(probability: Probability) -> (out: String)
    ensures
        out@ == probability_text(probability.bits()),
{
    let mut out = String::new();
    push_probability(&mut out, probability);
    assert(Seq::<char>::empty() + probability_text(probability.bits()) =~= probability_text(
        probability.bits(),
    ));
    out
}

/// Reports `predictions` in their order, each under the label of its class.
///
/// Fails with `Lookup` at the first prediction whose class has no label.
pub fn describe(predictions: &Vec<Prediction>, labels: &LabelTable) -> (out: Result<String, PipelineError>)
    ensures
        match out {
            Ok(text) => described(predictions@, labels@) == Ok::<Seq<char>, PipelineError>(text@),
            Err(e) => described(predictions@, labels@) == Err::<Seq<char>, PipelineError>(e),
        },
{
    let count: usize = predictions.len();
    let mut text: String = String::new();
    let mut r: usize = 0;
    while r < count
        invariant
            count == predictions.len(),
            r <= count,
            forall|q: int| 0 <= q < r ==> predictions[q].index < labels@.len(),
            text@ == listing(predictions@, labels@, r as nat),
        decreases count - r,
    {
        let prediction: Prediction = predictions[r];
        let label: &str = match labels.get(prediction.index) {
            Ok(label) => label,
            Err(e) => {
                proof {
                    lemma_first_position_is(
                        predictions@,
                        |prediction: Prediction| prediction.index >= labels@.len(),
                        r as int,
                    );
                }
                return Err(e);
            },
        };
        let ghost before = text@;
        if r > 0 {
            text.push(',');
            text.push(' ');
        }
        text.append(label);
        text.push(':');
        text.push(' ');
        push_probability(&mut text, prediction.probability);
        proof {
            let entry = entry_text(label@, prediction.probability.bits());
            if r > 0 {
                assert(text@ =~= before + seq![',', ' '] + entry);
            } else {
                assert(text@ =~= entry);
            }
        }
        r += 1;
    }
    proof {
        lemma_first_position_is(
            predictions@,
            |prediction: Prediction| prediction.index >= labels@.len(),
            count as int,
        );
    }
    Ok(text)
}

/// Reports the `k` most probable classes, most probable first.
///
/// Fails with `Lookup` when one of them has no label, naming the first such
/// class in ranking order.
pub fn interpret(probabilities: &Vec<Probability>, labels: &LabelTable, k: usize) -> (out: Result<
    String,
    PipelineError,
>)
    ensures
        match out {
            Ok(text) => described(top_predictions(probabilities@, k as nat), labels@) == Ok::<
                Seq<char>,
                PipelineError,
            >(text@),
            Err(e) => described(top_predictions(probabilities@, k as nat), labels@) == Err::<
                Seq<char>,
                PipelineError,
            >(e),
        },
{
    let best = top_k(probabilities, k);
    describe(&best, labels)
}

} // verus!
