//! The generator of the PC version: a subtractive lagged generator over a table of 55
//! values below 2^31 - 1, read by two cursors that stay 21 places apart. A seed fills the
//! table in a scattered order and then mixes it four times before the first draw.
//!
//! The game's runtime does all of this in 32-bit arithmetic that wraps around, and so does
//! this module, step for step. A table whose values are all from 0 up to but not including
//! 2^31 - 1 is called regular here. Draws keep a regular table regular, and every draw from
//! one is a sample in that range. Every seed from -161803398 to 161803398 is shown to fill a
//! regular table. For a table that is not regular the draws are still those of the
//! runtime's arithmetic: a sample is then at least -1.

use vstd::prelude::*;
use crate::binary64::{lemma_round_to_significand_bound, spec_signed_scale, Fraction};

verus! {

/// 2^31 - 1: every value of a regular table and every sample is below it.
pub const MBIG: i32 = 2147483647;

/// The value that the seed is taken from to start the table.
pub const MSEED: i32 = 161803398;

/// The table has the places 1 to 55; place 0 is never read.
pub const TABLE_LEN: usize = 56;

/// The table and the places of the two cursors.
pub struct MsCorLibRandom {
    seed_array: [i32; 56],
    inext: usize,
    inextp: usize,
}

/// What a generator holds: the table and the places of its two cursors.
pub struct SubtractiveModel {
    pub table: Seq<i32>,
    pub inext: int,
    pub inextp: int,
}

/// Why a generator could not be made. Every 32-bit seed makes one, so that nothing in this
/// library gives this error.
#[derive(Clone, Copy, Debug, PartialEq, Eq, Structural)]
pub enum PrngError {
    /// The seed is no 32-bit number.
    SeedNotRepresentable,
}

impl PrngError {
    /// The message shown to the player.
    pub fn to_string(&self) -> (message: String)
        ensures
            message@ == "Error creating random number generator."@,
    {
        String::from_str("Error creating random number generator.")
    }
}

/// A difference of two 32-bit values as 32-bit arithmetic that wraps around gives it.
pub open spec fn spec_wrap(difference: int) -> int {
    if difference > 2147483647 {
        difference - 4294967296
    } else if difference < -2147483648 {
        difference + 4294967296
    } else {
        difference
    }
}

/// A wrapped difference brought back up by 2^31 - 1 where it is negative.
pub open spec fn spec_reduce(difference: int) -> i32 {
    let wrapped = spec_wrap(difference);
    if wrapped < 0 {
        (wrapped + 2147483647) as i32
    } else {
        wrapped as i32
    }
}

/// The size of a seed: its absolute value, and 2^31 - 1 for the one seed that has none.
pub open spec fn spec_seed_magnitude(seed: i32) -> int {
    if seed == -2147483648 {
        2147483647
    } else if seed < 0 {
        -seed
    } else {
        seed as int
    }
}

/// The table, the last value placed and the next value to place after `steps` steps of
/// filling, from `start` in place 55. Step `i` writes into place 21 * `i` mod 55.
pub open spec fn spec_scatter(start: i32, steps: nat) -> (Seq<i32>, i32, i32)
    decreases steps,
{
    if steps == 0 {
        (Seq::new(56, |i: int| 0i32).update(55, start), start, 1i32)
    } else {
        let (table, mj, mk) = spec_scatter(start, (steps - 1) as nat);
        (table.update(((21 * steps) % 55) as int, mk), mk, spec_reduce(mj - mk))
    }
}

/// The table after `steps` steps of mixing. The steps go round the places 1 to 55, and each
/// takes from its place the value 31 places further on, going round.
pub open spec fn spec_mix(table: Seq<i32>, steps: nat) -> Seq<i32>
    decreases steps,
{
    if steps == 0 {
        table
    } else {
        let before = spec_mix(table, (steps - 1) as nat);
        let place = ((steps - 1) % 55 + 1) as int;
        before.update(place, spec_reduce(before[place] - before[1 + (place + 30) % 55]))
    }
}

/// The table that a seed fills: 54 steps of filling, then four rounds of mixing.
pub open spec fn spec_seed_table(seed: i32) -> Seq<i32> {
    spec_mix(spec_scatter((161803398 - spec_seed_magnitude(seed)) as i32, 54).0, 220)
}

/// The place after `place` for a cursor: the places go round from 55 to 1.
pub open spec fn spec_next_place(place: int) -> int {
    if place + 1 >= 56 {
        1
    } else {
        place + 1
    }
}

impl SubtractiveModel {
    /// The generator that a seed starts.
    pub open spec fn spec_from_seed(seed: i32) -> SubtractiveModel {
        SubtractiveModel { table: spec_seed_table(seed), inext: 0, inextp: 21 }
    }

    /// The table has its 56 places and both cursors are on it.
    pub open spec fn wf(self) -> bool {
        &&& self.table.len() == 56
        &&& 0 <= self.inext < 56
        &&& 0 <= self.inextp < 56
    }

    /// The table is regular: every place from 1 on holds a value from 0 up to but not
    /// including 2^31 - 1.
    pub open spec fn spec_regular(self) -> bool {
        &&& self.wf()
        &&& forall|i: int| 1 <= i < 56 ==> 0 <= #[trigger] self.table[i] < 2147483647
    }

    /// The next sample: the value under the first cursor's next place less the value under
    /// the second's, in 32-bit arithmetic that wraps around, then one less where that is
    /// 2^31 - 1, then 2^31 - 1 more where it is negative. From a regular table this is the
    /// difference modulo 2^31 - 1.
    pub open spec fn spec_sample(self) -> i32 {
        let wrapped = spec_wrap(
            self.table[spec_next_place(self.inext)] - self.table[spec_next_place(self.inextp)],
        );
        let lowered = if wrapped == 2147483647 {
            2147483646
        } else {
            wrapped
        };
        if lowered < 0 {
            (lowered + 2147483647) as i32
        } else {
            lowered as i32
        }
    }

    /// The next sample as a 32-bit word.
    pub open spec fn spec_sample_word(self) -> u32 {
        if self.spec_sample() < 0 {
            (self.spec_sample() + 4294967296) as u32
        } else {
            self.spec_sample() as u32
        }
    }

    /// The generator after one draw: both cursors moved on, and the sample written under
    /// the first.
    pub open spec fn spec_advance(self) -> SubtractiveModel {
        SubtractiveModel {
            table: self.table.update(spec_next_place(self.inext), self.spec_sample()),
            inext: spec_next_place(self.inext),
            inextp: spec_next_place(self.inextp),
        }
    }

    /// What the next draw gives as a binary64 value: the product of the sample and
    /// 1.0 / 2147483647.0.
    pub open spec fn spec_fraction(self) -> Fraction {
        Fraction { numerator: Fraction::spec_from_sample(self.spec_sample() as int) as i64 }
    }

    /// What the next draw gives for the range from `lo` up to but not including `hi`: `lo`
    /// and the binary64 product of the draw's value and the width of the range, cut down
    /// to a whole number, added in 32-bit arithmetic that wraps around.
    pub open spec fn spec_range(self, lo: int, hi: int) -> int {
        spec_wrap(lo + spec_signed_scale(self.spec_fraction().numerator as int, (hi - lo) as nat))
    }

    /// A sample is at least -1 and below 2^31 - 1. From a regular table it is not negative,
    /// and the table stays regular.
    pub proof fn lemma_advance_wf(self)
        requires
            self.wf(),
        ensures
            self.spec_advance().wf(),
            -1 <= self.spec_sample() < 2147483647,
            self.spec_regular() ==> 0 <= self.spec_sample() && self.spec_advance().spec_regular(),
    {
        if self.spec_regular() {
            assert(0 <= self.table[spec_next_place(self.inext)] < 2147483647);
            assert(0 <= self.table[spec_next_place(self.inextp)] < 2147483647);
        }
    }

    /// A draw from a regular table is a value of the unit interval and stays inside its
    /// range. A draw from any table stays inside a range that is less than 2^31 - 1 wide.
    pub proof fn lemma_range(self, lo: int, hi: int)
        requires
            self.wf(),
            -2147483648 <= lo < hi <= 2147483647,
        ensures
            self.spec_regular() ==> self.spec_fraction().wf(),
            self.spec_regular() || hi - lo < 2147483647 ==> lo <= self.spec_range(lo, hi) < hi,
            -2 <= spec_signed_scale(self.spec_fraction().numerator as int, (hi - lo) as nat) < hi
                - lo,
    {
        self.lemma_advance_wf();
        let sample = self.spec_sample() as int;
        let width = hi - lo;
        if sample >= 0 {
            assert(0 <= 2147483649 * sample <= 2147483649 * 2147483646) by (nonlinear_arith)
                requires
                    0 <= sample <= 2147483646,
            ;
            lemma_round_to_significand_bound((2147483649 * sample) as nat);
            let numerator = self.spec_fraction().numerator as int;
            assert(0 <= numerator * width <= 4611686018427387392 * width) by (nonlinear_arith)
                requires
                    0 <= numerator <= 4611686018427387392,
                    0 <= width,
            ;
            lemma_round_to_significand_bound((numerator * width) as nat);
        } else {
            lemma_round_to_significand_bound(2147483649);
            assert(0 <= 2147483649 * width <= 2147483649 * 4294967295) by (nonlinear_arith)
                requires
                    0 <= width <= 4294967295,
            ;
            assert(width < 2147483647 ==> 2147483649 * width <= 2147483649 * 2147483646)
                by (nonlinear_arith)
                requires
                    0 <= width,
            ;
            lemma_round_to_significand_bound((2147483649 * width) as nat);
        }
    }
}

/// Whether every value of a table is from 0 up to but not including 2^31 - 1.
pub open spec fn spec_in_range(table: Seq<i32>) -> bool {
    table.len() == 56 && forall|i: int| 0 <= i < 56 ==> 0 <= #[trigger] table[i] < 2147483647
}

/// Filling and mixing keep the table at its 56 places.
pub proof fn lemma_seed_table_len(seed: i32)
    ensures
        spec_seed_table(seed).len() == 56,
{
    let start = (161803398 - spec_seed_magnitude(seed)) as i32;
    lemma_scatter_len(start, 54);
    lemma_mix_len(spec_scatter(start, 54).0, 220);
}

/// Filling keeps the table at its 56 places.
pub proof fn lemma_scatter_len(start: i32, steps: nat)
    ensures
        spec_scatter(start, steps).0.len() == 56,
    decreases steps,
{
    if steps > 0 {
        lemma_scatter_len(start, (steps - 1) as nat);
    }
}

/// Mixing keeps the table at its 56 places.
pub proof fn lemma_mix_len(table: Seq<i32>, steps: nat)
    requires
        table.len() == 56,
    ensures
        spec_mix(table, steps).len() == 56,
    decreases steps,
{
    if steps > 0 {
        lemma_mix_len(table, (steps - 1) as nat);
    }
}

/// Filling from a start inside the range keeps every value inside the range.
pub proof fn lemma_scatter_in_range(start: i32, steps: nat)
    requires
        0 <= start < 2147483647,
    ensures
        spec_in_range(spec_scatter(start, steps).0),
        0 <= spec_scatter(start, steps).1 < 2147483647,
        0 <= spec_scatter(start, steps).2 < 2147483647,
    decreases steps,
{
    if steps > 0 {
        lemma_scatter_in_range(start, (steps - 1) as nat);
    }
}

/// Mixing a table inside the range keeps every value inside the range.
pub proof fn lemma_mix_in_range(table: Seq<i32>, steps: nat)
    requires
        spec_in_range(table),
    ensures
        spec_in_range(spec_mix(table, steps)),
    decreases steps,
{
    if steps > 0 {
        lemma_mix_in_range(table, (steps - 1) as nat);
        let before = spec_mix(table, (steps - 1) as nat);
        let place = ((steps - 1) % 55 + 1) as int;
        assert(0 <= before[place] < 2147483647);
        assert(0 <= before[1 + (place + 30) % 55] < 2147483647);
    }
}

/// A seed from -161803398 to 161803398 fills a regular table: the filling starts from a
/// value that is not negative, and nothing wraps around.
pub proof fn lemma_small_seed_regular(seed: i32)
    ensures
        SubtractiveModel::spec_from_seed(seed).wf(),
        spec_seed_magnitude(seed) <= 161803398 ==> SubtractiveModel::spec_from_seed(
            seed,
        ).spec_regular(),
{
    lemma_seed_table_len(seed);
    if spec_seed_magnitude(seed) <= 161803398 {
        let start = (161803398 - spec_seed_magnitude(seed)) as i32;
        lemma_scatter_in_range(start, 54);
        lemma_mix_in_range(spec_scatter(start, 54).0, 220);
    }
}

impl View for MsCorLibRandom {
    type V = SubtractiveModel;

    closed spec fn view(&self) -> SubtractiveModel {
        SubtractiveModel {
            table: self.seed_array@,
            inext: self.inext as int,
            inextp: self.inextp as int,
        }
    }
}

fn reduce(minuend: i32, subtrahend: i32) -> (reduced: i32)
    ensures
        reduced == spec_reduce(minuend - subtrahend),
{
    let wrapped: i32 = minuend.wrapping_sub(subtrahend);
    if wrapped < 0 {
        wrapped + MBIG
    } else {
        wrapped
    }
}

fn next_place(place: usize) -> (next: usize)
    requires
        place < 56,
    ensures
        next == spec_next_place(place as int),
        1 <= next < 56,
{
    if place + 1 >= TABLE_LEN {
        1
    } else {
        place + 1
    }
}

impl MsCorLibRandom {
    /// Fills the table from the seed. Every seed makes a generator; a seed from -161803398
    /// to 161803398 makes one with a regular table.
    pub fn from_seed(seed: i32) -> (generator: MsCorLibRandom)
        ensures
            generator@ == SubtractiveModel::spec_from_seed(seed),
            generator@.wf(),
            spec_seed_magnitude(seed) <= 161803398 ==> generator@.spec_regular(),
    {
        let magnitude: i32 = if seed == i32::MIN {
            i32::MAX
        } else if seed < 0 {
            -seed
        } else {
            seed
        };
        let start: i32 = MSEED - magnitude;
        let mut seed_array: [i32; 56] = [0i32; 56];
        seed_array[55] = start;
        let mut mj: i32 = start;
        let mut mk: i32 = 1;
        let mut i: usize = 1;
        while i < 55
            invariant
                1 <= i <= 55,
                (seed_array@, mj, mk) == spec_scatter(start, (i - 1) as nat),
            decreases 55 - i,
        {
            let place: usize = (21 * i) % 55;
            seed_array[place] = mk;
            let placed: i32 = mk;
            mk = reduce(mj, mk);
            mj = placed;
            i = i + 1;
        }
        let ghost scattered = seed_array@;
        let mut round: usize = 0;
        while round < 4
            invariant
                0 <= round <= 4,
                seed_array@ == spec_mix(scattered, (round * 55) as nat),
            decreases 4 - round,
        {
            let mut place: usize = 1;
            while place < 56
                invariant
                    0 <= round < 4,
                    1 <= place <= 56,
                    seed_array@ == spec_mix(scattered, (round * 55 + place - 1) as nat),
                decreases 56 - place,
            {
                let other: usize = 1 + (place + 30) % 55;
                seed_array[place] = reduce(seed_array[place], seed_array[other]);
                place = place + 1;
            }
            round = round + 1;
        }
        proof {
            lemma_small_seed_regular(seed);
        }
        MsCorLibRandom { seed_array, inext: 0, inextp: 21 }
    }

    /// Draws one sample: at least -1 and below 2^31 - 1, and not negative from a regular
    /// table.
    pub fn sample(&mut self) -> (sample: i32)
        requires
            old(self)@.wf(),
        ensures
            final(self)@ == old(self)@.spec_advance(),
            final(self)@.wf(),
            sample == old(self)@.spec_sample(),
            -1 <= sample < 2147483647,
            old(self)@.spec_regular() ==> 0 <= sample && final(self)@.spec_regular(),
    {
        proof {
            self@.lemma_advance_wf();
        }
        let first: usize = next_place(self.inext);
        let second: usize = next_place(self.inextp);
        let wrapped: i32 = self.seed_array[first].wrapping_sub(self.seed_array[second]);
        let mut sample: i32 = if wrapped == MBIG {
            MBIG - 1
        } else {
            wrapped
        };
        if sample < 0 {
            sample = sample + MBIG;
        }
        self.seed_array[first] = sample;
        self.inext = first;
        self.inextp = second;
        sample
    }

    /// Draws one sample and gives it as a word.
    pub fn next_u32(&mut self) -> (word: u32)
        requires
            old(self)@.wf(),
        ensures
            final(self)@ == old(self)@.spec_advance(),
            final(self)@.wf(),
            word == old(self)@.spec_sample_word(),
            old(self)@.spec_regular() ==> final(self)@.spec_regular(),
    {
        let sample: i32 = self.sample();
        if sample < 0 {
            (sample as i64 + 4294967296) as u32
        } else {
            sample as u32
        }
    }

    /// Draws one sample and scales it into the range from `lo` up to but not including
    /// `hi`. A range of any width is scaled in this one way. The value is inside the range
    /// where the table is regular, and from any table where the range is less than
    /// 2^31 - 1 wide.
    pub fn gen_range(&mut self, lo: i32, hi: i32) -> (value: i32)
        requires
            old(self)@.wf(),
            lo < hi,
        ensures
            final(self)@ == old(self)@.spec_advance(),
            final(self)@.wf(),
            value == old(self)@.spec_range(lo as int, hi as int),
            old(self)@.spec_regular() || hi - lo < 2147483647 ==> lo <= value < hi,
            old(self)@.spec_regular() ==> final(self)@.spec_regular(),
    {
        proof {
            self@.lemma_range(lo as int, hi as int);
        }
        let width: u32 = (hi as i64 - lo as i64) as u32;
        let sample: i32 = self.sample();
        let scaled: i64 = Fraction::from_sample(sample).scale(width);
        let sum: i64 = lo as i64 + scaled;
        if sum < -2147483648 {
            (sum + 4294967296) as i32
        } else {
            sum as i32
        }
    }

    /// Draws one sample and gives it as a binary64 value: one of the unit interval where
    /// the table is regular.
    pub fn gen_float(&mut self) -> (fraction: Fraction)
        requires
            old(self)@.wf(),
        ensures
            final(self)@ == old(self)@.spec_advance(),
            final(self)@.wf(),
            fraction == old(self)@.spec_fraction(),
            old(self)@.spec_regular() ==> fraction.wf() && final(self)@.spec_regular(),
    {
        proof {
            self@.lemma_range(0, 1);
        }
        let sample: i32 = self.sample();
        Fraction::from_sample(sample)
    }
}

} // verus!
