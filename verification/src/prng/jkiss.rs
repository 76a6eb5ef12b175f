//! The generator of the Switch version: four 32-bit words, of which one steps as a linear
//! congruential generator, one as a shift register, and two as a multiply-with-carry pair.
//!
//! This is the generator that David Jones published as JKISS in "Good Practice in (Pseudo)
//! Random Number Generation for Bioinformatics Applications". The multipliers, the
//! increment, the three shifts and the starting values of the shift register, of the
//! multiply-with-carry word and of the carry are the published ones. A seed is expanded
//! into the four words as the Mono runtime's `Random` expanded it while it was this
//! generator: the seed's bits take the place of the published starting value of the linear
//! congruential word, and the other three words start from their published values.

use vstd::prelude::*;
use vstd::arithmetic::div_mod::lemma_fundamental_div_mod;
use crate::binary64::Fraction;

verus! {

/// 2^32, the number of values of a word.
pub const WORD_RANGE: u64 = 4294967296;

/// The shift register's word of a fresh generator.
pub const Y_START: u32 = 987654321;

/// The multiply-with-carry word of a fresh generator.
pub const Z_START: u32 = 43219876;

/// The carry of a fresh generator.
pub const C_START: u32 = 6543217;

/// The four words.
#[derive(Clone, Copy, Debug, PartialEq, Eq, Structural)]
pub struct Jkiss {
    pub x: u32,
    pub y: u32,
    pub z: u32,
    pub c: u32,
}

/// The bits of a seed read as a word.
pub open spec fn spec_seed_word(seed: i32) -> u32 {
    if seed >= 0 {
        seed as u32
    } else {
        (seed + 4294967296) as u32
    }
}

/// One step of the shift register.
pub open spec fn spec_shift_register(y: u32) -> u32 {
    let a = y ^ (y << 5);
    let b = a ^ (a >> 7);
    b ^ (b << 22)
}

/// One step of the linear congruential word.
pub open spec fn spec_congruential(x: u32) -> u32 {
    ((314527869 * x + 1234567) % 4294967296) as u32
}

/// One step of the multiply-with-carry pair: the new word and the new carry.
pub open spec fn spec_multiply_with_carry(z: u32, c: u32) -> (u32, u32) {
    let carried = 4294584393 * z + c;
    ((carried % 4294967296) as u32, (carried / 4294967296) as u32)
}

/// The sum of the three words that a draw gives out, reduced to a word.
pub open spec fn spec_combine(x: u32, y: u32, z: u32) -> u32 {
    ((x + y + z) % 4294967296) as u32
}

fn congruential(x: u32) -> (next: u32)
    ensures
        next == spec_congruential(x),
{
    ((314527869 * (x as u64) + 1234567) % WORD_RANGE) as u32
}

fn shift_register(y: u32) -> (next: u32)
    ensures
        next == spec_shift_register(y),
{
    let a: u32 = y ^ (y << 5);
    let b: u32 = a ^ (a >> 7);
    b ^ (b << 22)
}

fn multiply_with_carry(z: u32, c: u32) -> (next: (u32, u32))
    ensures
        next == spec_multiply_with_carry(z, c),
{
    let carried: u64 = 4294584393 * (z as u64) + (c as u64);
    ((carried % WORD_RANGE) as u32, (carried / WORD_RANGE) as u32)
}

fn combine(x: u32, y: u32, z: u32) -> (word: u32)
    ensures
        word == spec_combine(x, y, z),
{
    ((x as u64 + y as u64 + z as u64) % WORD_RANGE) as u32
}

impl Jkiss {
    /// The generator that a seed starts.
    pub open spec fn spec_from_seed(seed: i32) -> Jkiss {
        Jkiss { x: spec_seed_word(seed), y: Y_START, z: Z_START, c: C_START }
    }

    /// The generator after one draw.
    pub open spec fn spec_advance(self) -> Jkiss {
        Jkiss {
            x: spec_congruential(self.x),
            y: spec_shift_register(self.y),
            z: spec_multiply_with_carry(self.z, self.c).0,
            c: spec_multiply_with_carry(self.z, self.c).1,
        }
    }

    /// The word that the draw which led to this state gave out.
    pub open spec fn spec_output(self) -> u32 {
        spec_combine(self.x, self.y, self.z)
    }

    /// The word that the next draw gives out.
    pub open spec fn spec_next_word(self) -> u32 {
        self.spec_advance().spec_output()
    }

    /// What the next draw gives for the range from `lo` up to but not including `hi`: `lo`
    /// and the remainder of the word by the width of the range.
    pub open spec fn spec_range(self, lo: int, hi: int) -> int {
        lo + self.spec_next_word() as int % (hi - lo)
    }

    /// What the next draw gives as a value of the unit interval: the word over 2^32.
    pub open spec fn spec_fraction(self) -> Fraction {
        Fraction { numerator: Fraction::spec_from_word(self.spec_next_word() as int) as i64 }
    }

    /// The generator that a seed starts: the seed's bits as the linear congruential word,
    /// and the same three words beside it for every seed.
    pub fn from_seed(seed: i32) -> (generator: Jkiss)
        ensures
            generator == Self::spec_from_seed(seed),
    {
        let word: u32 = if seed >= 0 {
            seed as u32
        } else {
            (seed as i64 + WORD_RANGE as i64) as u32
        };
        Jkiss { x: word, y: Y_START, z: Z_START, c: C_START }
    }

    /// Draws one word.
    pub fn next_u32(&mut self) -> (word: u32)
        ensures
            *final(self) == old(self).spec_advance(),
            word == old(self).spec_next_word(),
    {
        let pair: (u32, u32) = multiply_with_carry(self.z, self.c);
        self.x = congruential(self.x);
        self.y = shift_register(self.y);
        self.z = pair.0;
        self.c = pair.1;
        combine(self.x, self.y, self.z)
    }

    /// Draws one word and reduces it into the range from `lo` up to but not including `hi`.
    pub fn gen_range(&mut self, lo: i32, hi: i32) -> (value: i32)
        requires
            lo < hi,
        ensures
            *final(self) == old(self).spec_advance(),
            value == old(self).spec_range(lo as int, hi as int),
            lo <= value < hi,
    {
        let width: u64 = (hi as i64 - lo as i64) as u64;
        let word: u32 = self.next_u32();
        (lo as i64 + (word as u64 % width) as i64) as i32
    }

    /// Draws one word and gives it as a value of the unit interval.
    pub fn gen_float(&mut self) -> (fraction: Fraction)
        ensures
            *final(self) == old(self).spec_advance(),
            fraction == old(self).spec_fraction(),
            fraction.wf(),
    {
        let word: u32 = self.next_u32();
        Fraction::from_word(word)
    }
}

/// The linear congruential word never steps from two values to the same value: its
/// multiplier is odd and so has an inverse modulo 2^32.
pub proof fn lemma_congruential_injective(x: u32, y: u32)
    requires
        spec_congruential(x) == spec_congruential(y),
    ensures
        x == y,
{
    let p = 314527869 * x + 1234567;
    let q = 314527869 * y + 1234567;
    lemma_fundamental_div_mod(p, 4294967296);
    lemma_fundamental_div_mod(q, 4294967296);
    let k = p / 4294967296 - q / 4294967296;
    let d = x - y;
    assert(d == 4294967296 * (1644210389 * k - 120408365 * d)) by (nonlinear_arith)
        requires
            314527869 * d == 4294967296 * k,
    ;
}

/// Two generators from different seeds give different first words.
pub proof fn lemma_seeds_diverge(first: i32, second: i32)
    requires
        first != second,
    ensures
        Jkiss::spec_from_seed(first).spec_next_word() != Jkiss::spec_from_seed(
            second,
        ).spec_next_word(),
{
    let a = Jkiss::spec_from_seed(first);
    let b = Jkiss::spec_from_seed(second);
    if a.spec_next_word() == b.spec_next_word() {
        let x = spec_congruential(a.x);
        let y = spec_congruential(b.x);
        let rest = spec_shift_register(Y_START) + spec_multiply_with_carry(Z_START, C_START).0;
        lemma_fundamental_div_mod(x + rest, 4294967296);
        lemma_fundamental_div_mod(y + rest, 4294967296);
        lemma_congruential_injective(a.x, b.x);
    }
}

/// The shift register never steps from a word that is not zero to zero.
pub proof fn lemma_shift_register_nonzero(y: u32)
    requires
        y != 0,
    ensures
        spec_shift_register(y) != 0,
{
    assert(y != 0 ==> ({
        let a = y ^ (y << 5);
        let b = a ^ (a >> 7);
        b ^ (b << 22)
    }) != 0) by (bit_vector);
}

impl Jkiss {
    /// The generator after `draws` draws.
    pub open spec fn spec_skip(self, draws: nat) -> Jkiss
        decreases draws,
    {
        if draws == 0 {
            self
        } else {
            self.spec_advance().spec_skip((draws - 1) as nat)
        }
    }

    /// No seed and no number of draws lead to the generator of four zeros, from which every
    /// further word would be the same: the shift register's word is never zero.
    pub proof fn lemma_never_all_zero(seed: i32, draws: nat)
        ensures
            Self::spec_from_seed(seed).spec_skip(draws).y != 0,
    {
        Self::lemma_skip_keeps_nonzero(Self::spec_from_seed(seed), draws);
    }

    /// Draws keep the shift register's word from zero.
    pub proof fn lemma_skip_keeps_nonzero(self, draws: nat)
        requires
            self.y != 0,
        ensures
            self.spec_skip(draws).y != 0,
        decreases draws,
    {
        if draws > 0 {
            lemma_shift_register_nonzero(self.y);
            Self::lemma_skip_keeps_nonzero(self.spec_advance(), (draws - 1) as nat);
        }
    }
}

} // verus!
