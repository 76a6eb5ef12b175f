//! The game compares and scales its random draws as binary64 ("double") values. Every such
//! value that the generators produce is a whole number of 2^-62 steps, so this module holds
//! them as integers over 2^62 and does the two binary64 operations that the game applies to
//! them, a multiplication and a truncation, exactly: a product is rounded to 53 significant
//! bits, to the nearest value and to the even one on a tie.

use vstd::prelude::*;
use vstd::arithmetic::div_mod::{lemma_fundamental_div_mod, lemma_fundamental_div_mod_converse};

verus! {

/// 2^53: a whole number below it has at most 53 significant bits.
pub const SIGNIFICAND_LIMIT: u64 = 9007199254740992;

/// 2^62: the numerator of the value one.
pub const ONE: u64 = 4611686018427387904;

/// 2^62 - 2^9: the numerator of the largest binary64 value below one.
pub const LARGEST_BELOW_ONE: u64 = 4611686018427387392;

/// 2^31 + 1: the numerator of 1.0 / 2147483647.0 as binary64 computes it.
pub const RECIPROCAL_OF_I32_MAX: u64 = 2147483649;

/// 2^30: the numerator of 1.0 / 4294967296.0.
pub const RECIPROCAL_OF_WORD_RANGE: u64 = 1073741824;

/// The numerator of the binary64 literal 0.008.
pub const THRESHOLD_0_008: u64 = 36893488147419104;

/// The numerator of the binary64 literal 0.01.
pub const THRESHOLD_0_01: u64 = 46116860184273880;

/// The numerator of the binary64 literal 0.05.
pub const THRESHOLD_0_05: u64 = 230584300921369408;

/// The numerator of the binary64 literal 0.1.
pub const THRESHOLD_0_1: u64 = 461168601842738816;

/// The numerator of the binary64 literal 0.25.
pub const THRESHOLD_0_25: u64 = 1152921504606846976;

/// The numerator of the binary64 literal 0.4.
pub const THRESHOLD_0_4: u64 = 1844674407370955264;

/// The numerator of the binary64 literal 0.5.
pub const THRESHOLD_0_5: u64 = 2305843009213693952;

/// The largest product that `round_to_significand` takes: 2^96 - 1.
pub const ROUNDING_LIMIT: u128 = 79228162514264337593543950335;

/// A binary64 value as a draw gives it: `numerator` / 2^62. Every draw of a generator
/// whose table is in its range is a value of the unit interval; the numerator has a sign
/// for the one sample below zero that the arithmetic of the PC's generator could give
/// from a table outside its range.
#[derive(Clone, Copy, Debug, PartialEq, Eq, Structural)]
pub struct Fraction {
    pub numerator: i64,
}

/// The spacing of the 53-bit values around `p`: 1 below 2^53, and doubling with each
/// further bit of `p`.
pub open spec fn spec_spacing(p: nat) -> nat
    decreases p,
{
    if p < 9007199254740992 {
        1
    } else {
        2 * spec_spacing(p / 2)
    }
}

/// `p` rounded to 53 significant bits: the nearest multiple of the spacing around `p`, and
/// of two that are equally near the one whose quotient by the spacing is even. A proof
/// that goes into the rounding reveals this; `lemma_round_to_significand_bound` gives what
/// the generators need of it.
#[verifier::opaque]
pub open spec fn spec_round_to_significand(p: nat) -> nat {
    let spacing = spec_spacing(p);
    let quotient = p / spacing;
    let remainder = p % spacing;
    if 2 * remainder > spacing || (2 * remainder == spacing && quotient % 2 == 1) {
        (quotient + 1) * spacing
    } else {
        quotient * spacing
    }
}

/// The numerator of the binary64 product of the value `numerator` / 2^62 and the whole
/// number `factor`.
pub open spec fn spec_product(numerator: nat, factor: nat) -> nat {
    spec_round_to_significand(numerator * factor)
}

/// The binary64 product of the value `numerator` / 2^62 and the whole number `factor`, cut
/// down to a whole number.
pub open spec fn spec_scale(numerator: nat, factor: nat) -> nat {
    spec_product(numerator, factor) / 4611686018427387904
}

/// The spacing is positive; it is 1 below 2^53; from there on it is at most `p` / 2^52.
pub proof fn lemma_spacing(p: nat)
    ensures
        spec_spacing(p) >= 1,
        p < 9007199254740992 ==> spec_spacing(p) == 1,
        p >= 9007199254740992 ==> 4503599627370496 * spec_spacing(p) <= p,
    decreases p,
{
    if p >= 9007199254740992 {
        lemma_spacing(p / 2);
    }
}

/// Rounding moves a value up by at most one part in 2^53, and leaves a value below 2^53 as
/// it is.
pub proof fn lemma_round_to_significand_bound(p: nat)
    ensures
        spec_round_to_significand(p) * 9007199254740992 <= p * 9007199254740993,
        p < 9007199254740992 ==> spec_round_to_significand(p) == p,
{
    reveal(spec_round_to_significand);
    lemma_spacing(p);
    let spacing = spec_spacing(p);
    let quotient = p / spacing;
    let remainder = p % spacing;
    lemma_fundamental_div_mod(p as int, spacing as int);
    assert((quotient + 1) * spacing == spacing * quotient + spacing) by (nonlinear_arith);
}

/// Rounds `p` to 53 significant bits, to the nearest and to the even one on a tie.
pub fn round_to_significand(p: u128) -> (rounded: u128)
    requires
        p <= ROUNDING_LIMIT,
    ensures
        rounded == spec_round_to_significand(p as nat),
{
    let mut quotient: u128 = p;
    let mut spacing: u128 = 1;
    while quotient >= SIGNIFICAND_LIMIT as u128
        invariant
            p <= ROUNDING_LIMIT,
            1 <= spacing,
            quotient * spacing <= p,
            p < (quotient + 1) * spacing,
            spec_spacing(p as nat) == spacing * spec_spacing(quotient as nat),
        decreases quotient,
    {
        proof {
            let q = quotient as int;
            let s = spacing as int;
            let inner = spec_spacing((quotient / 2) as nat) as int;
            assert(s <= q * s) by (nonlinear_arith)
                requires
                    q >= 1,
                    s >= 1,
            ;
            assert((q / 2) * (2 * s) <= q * s) by (nonlinear_arith)
                requires
                    q >= 0,
                    s >= 1,
            ;
            assert((q + 1) * s <= (q / 2 + 1) * (2 * s)) by (nonlinear_arith)
                requires
                    q >= 0,
                    s >= 1,
            ;
            assert(s * (2 * inner) == (2 * s) * inner) by (nonlinear_arith);
        }
        quotient = quotient / 2;
        spacing = spacing * 2;
    }
    let low: u128 = quotient * spacing;
    let remainder: u128 = p - low;
    proof {
        reveal(spec_round_to_significand);
        lemma_spacing(quotient as nat);
        assert(spec_spacing(p as nat) == spacing) by (nonlinear_arith)
            requires
                spec_spacing(p as nat) == spacing * spec_spacing(quotient as nat),
                spec_spacing(quotient as nat) == 1,
        ;
        assert((quotient + 1) * spacing == quotient * spacing + spacing) by (nonlinear_arith);
        lemma_fundamental_div_mod_converse(
            p as int,
            spacing as int,
            quotient as int,
            remainder as int,
        );
    }
    if remainder * 2 > spacing || (remainder * 2 == spacing && quotient % 2 == 1) {
        low + spacing
    } else {
        low
    }
}

/// The binary64 product of the value `numerator` / 2^62, of either sign, and the whole
/// number `factor`, cut down towards zero to a whole number.
pub open spec fn spec_signed_scale(numerator: int, factor: nat) -> int {
    if numerator >= 0 {
        spec_scale(numerator as nat, factor) as int
    } else {
        -(spec_scale((-numerator) as nat, factor) as int)
    }
}

impl Fraction {
    /// The value is one of the unit interval, one excluded.
    pub open spec fn wf(self) -> bool {
        0 <= self.numerator <= LARGEST_BELOW_ONE
    }

    /// The numerator of the binary64 product of a sample and 1.0 / 2147483647.0.
    pub open spec fn spec_from_sample(sample: int) -> int {
        if sample >= 0 {
            spec_product(2147483649, sample as nat) as int
        } else {
            -(spec_product(2147483649, (-sample) as nat) as int)
        }
    }

    /// The numerator of a 32-bit word divided by 2^32. A proof that goes into the
    /// division reveals this.
    #[verifier::opaque]
    pub open spec fn spec_from_word(word: int) -> int {
        word * 1073741824
    }

    /// The binary64 product of a sample and 1.0 / 2147483647.0. A sample from 0 up to but
    /// not including 2147483647 gives a value of the unit interval.
    pub fn from_sample(sample: i32) -> (fraction: Fraction)
        ensures
            fraction.numerator == Self::spec_from_sample(sample as int),
            0 <= sample < 2147483647 ==> fraction.wf(),
    {
        let magnitude: u128 = if sample >= 0 {
            sample as u128
        } else {
            (-(sample as i64)) as u128
        };
        proof {
            let m = magnitude as int;
            assert(0 <= 2147483649 * m <= 2147483649 * 2147483648) by (nonlinear_arith)
                requires
                    0 <= m <= 2147483648,
            ;
            assert(sample < 2147483647 && sample >= 0 ==> 2147483649 * m <= 2147483649
                * 2147483646) by (nonlinear_arith)
                requires
                    m == sample || m == -sample,
                    0 <= m,
            ;
        }
        let product: u128 = RECIPROCAL_OF_I32_MAX as u128 * magnitude;
        proof {
            lemma_round_to_significand_bound(product as nat);
        }
        let rounded: u128 = round_to_significand(product);
        if sample >= 0 {
            Fraction { numerator: rounded as i64 }
        } else {
            Fraction { numerator: -(rounded as i64) }
        }
    }

    /// A 32-bit word divided by 2^32, which binary64 holds exactly.
    pub fn from_word(word: u32) -> (fraction: Fraction)
        ensures
            fraction.numerator == Self::spec_from_word(word as int),
            fraction.wf(),
    {
        reveal(Fraction::spec_from_word);
        Fraction { numerator: word as i64 * 1073741824 }
    }

    /// The binary64 product of this value and `factor`, cut down towards zero to a whole
    /// number, in the way the game picks one of `factor` outcomes from a draw. A value of
    /// the unit interval gives a whole number below `factor`.
    pub fn scale(&self, factor: u32) -> (scaled: i64)
        ensures
            scaled == spec_signed_scale(self.numerator as int, factor as nat),
            self.wf() && factor > 0 ==> 0 <= scaled < factor,
            factor == 0 ==> scaled == 0,
    {
        let magnitude: u128 = if self.numerator >= 0 {
            self.numerator as u128
        } else {
            (-(self.numerator as i128)) as u128
        };
        proof {
            let n = magnitude as int;
            let f = factor as int;
            assert(0 <= n * f <= 9223372036854775808 * 4294967295) by (nonlinear_arith)
                requires
                    0 <= n <= 9223372036854775808,
                    0 <= f <= 4294967295,
            ;
            assert(n <= 4611686018427387392 ==> n * f <= 4611686018427387392 * f)
                by (nonlinear_arith)
                requires
                    0 <= n,
                    0 <= f,
            ;
            assert(f == 0 ==> n * f == 0) by (nonlinear_arith);
        }
        let product: u128 = magnitude * factor as u128;
        proof {
            lemma_round_to_significand_bound(product as nat);
        }
        let rounded: u128 = round_to_significand(product);
        let whole: i64 = (rounded / ONE as u128) as i64;
        if self.numerator >= 0 {
            whole
        } else {
            -whole
        }
    }

    /// Whether this value is below the value with the numerator `threshold`.
    pub fn below(&self, threshold: u64) -> (answer: bool)
        ensures
            answer == (self.numerator < threshold),
    {
        self.numerator < 0 || (self.numerator as u64) < threshold
    }

    /// Whether this value is at most the value with the numerator `threshold`.
    pub fn at_most(&self, threshold: u64) -> (answer: bool)
        ensures
            answer == (self.numerator <= threshold),
    {
        self.numerator < 0 || (self.numerator as u64) <= threshold
    }

    /// Whether this value is at least the value with the numerator `threshold`.
    pub fn at_least(&self, threshold: u64) -> (answer: bool)
        ensures
            answer == (self.numerator >= threshold),
    {
        self.numerator >= 0 && (self.numerator as u64) >= threshold
    }
}

} // verus!
