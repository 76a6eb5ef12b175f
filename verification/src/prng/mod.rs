//! The two random number generators of the game's platforms behind one set of draws.

pub mod jkiss;
pub mod ms_cor_lib_random;

use vstd::prelude::*;
use crate::binary64::Fraction;
use crate::configuration::Platform;
use crate::prng::jkiss::Jkiss;
use crate::prng::ms_cor_lib_random::{
    lemma_small_seed_regular, spec_seed_magnitude, MsCorLibRandom, PrngError, SubtractiveModel,
};

verus! {

/// The generator of one platform.
pub enum Prng {
    Jkiss(Jkiss),
    MsCorLibRandom(MsCorLibRandom),
}

/// What a generator holds.
pub enum PrngModel {
    Jkiss(Jkiss),
    MsCorLibRandom(SubtractiveModel),
}

impl PrngModel {
    /// The generator that a platform makes of a seed: the four-word generator on the
    /// Switch, the subtractive generator on the PC.
    pub open spec fn spec_from_seed(platform: Platform, seed: i32) -> PrngModel {
        match platform {
            Platform::Switch => PrngModel::Jkiss(Jkiss::spec_from_seed(seed)),
            Platform::PC => PrngModel::MsCorLibRandom(SubtractiveModel::spec_from_seed(seed)),
        }
    }

    /// Whether the generator has its parts: the subtractive generator's table has its 56
    /// places and its cursors are on it.
    pub open spec fn wf(self) -> bool {
        match self {
            PrngModel::Jkiss(_) => true,
            PrngModel::MsCorLibRandom(model) => model.wf(),
        }
    }

    /// Whether every draw is sure to be a value of the unit interval: always on the Switch,
    /// and on the PC where the table is regular.
    pub open spec fn spec_regular(self) -> bool {
        match self {
            PrngModel::Jkiss(_) => true,
            PrngModel::MsCorLibRandom(model) => model.spec_regular(),
        }
    }

    /// The generator after one draw. Every kind of draw moves it on in the same way.
    pub open spec fn spec_advance(self) -> PrngModel {
        match self {
            PrngModel::Jkiss(words) => PrngModel::Jkiss(words.spec_advance()),
            PrngModel::MsCorLibRandom(model) => PrngModel::MsCorLibRandom(model.spec_advance()),
        }
    }

    /// The generator after `draws` draws.
    pub open spec fn spec_skip(self, draws: nat) -> PrngModel
        decreases draws,
    {
        if draws == 0 {
            self
        } else {
            self.spec_advance().spec_skip((draws - 1) as nat)
        }
    }

    /// The 32-bit word that the next draw gives.
    pub open spec fn spec_word(self) -> u32 {
        match self {
            PrngModel::Jkiss(words) => words.spec_next_word(),
            PrngModel::MsCorLibRandom(model) => model.spec_sample_word(),
        }
    }

    /// What the next draw gives for the range from `lo` up to but not including `hi`.
    pub open spec fn spec_range(self, lo: int, hi: int) -> int {
        match self {
            PrngModel::Jkiss(words) => words.spec_range(lo, hi),
            PrngModel::MsCorLibRandom(model) => model.spec_range(lo, hi),
        }
    }

    /// What the next draw gives as a binary64 value.
    pub open spec fn spec_fraction(self) -> Fraction {
        match self {
            PrngModel::Jkiss(words) => words.spec_fraction(),
            PrngModel::MsCorLibRandom(model) => model.spec_fraction(),
        }
    }

    /// A draw leaves a generator with its parts, and a regular one regular. A draw stays
    /// inside its range where the generator is regular, and from any generator where the
    /// range is less than 2^31 - 1 wide. A draw from a regular generator is a value of the
    /// unit interval.
    pub proof fn lemma_draw(self, lo: int, hi: int)
        requires
            self.wf(),
            -2147483648 <= lo < hi <= 2147483647,
        ensures
            self.spec_advance().wf(),
            self.spec_regular() ==> self.spec_advance().spec_regular(),
            self.spec_regular() || hi - lo < 2147483647 ==> lo <= self.spec_range(lo, hi) < hi,
            self.spec_regular() ==> self.spec_fraction().wf(),
    {
        match self {
            PrngModel::Jkiss(words) => {
                reveal(Fraction::spec_from_word);
                assert(0 <= words.spec_next_word() as int % (hi - lo) < hi - lo);
            },
            PrngModel::MsCorLibRandom(model) => {
                model.lemma_advance_wf();
                model.lemma_range(lo, hi);
            },
        }
    }

    /// Every seed makes a generator with its parts, and on the Switch, and on the PC from a
    /// seed from -161803398 to 161803398, a regular one.
    pub proof fn lemma_from_seed_wf(platform: Platform, seed: i32)
        ensures
            Self::spec_from_seed(platform, seed).wf(),
            platform == Platform::Switch || spec_seed_magnitude(seed) <= 161803398
                ==> Self::spec_from_seed(platform, seed).spec_regular(),
    {
        lemma_small_seed_regular(seed);
    }
}

impl View for Prng {
    type V = PrngModel;

    open spec fn view(&self) -> PrngModel {
        match *self {
            Prng::Jkiss(words) => PrngModel::Jkiss(words),
            Prng::MsCorLibRandom(generator) => PrngModel::MsCorLibRandom(generator@),
        }
    }
}

impl Prng {
    /// Makes the platform's generator of a seed: the four-word generator on the Switch, the
    /// subtractive generator on the PC.
    pub fn from_seed(platform: Platform, seed: i32) -> (prng: Prng)
        ensures
            prng@ == PrngModel::spec_from_seed(platform, seed),
            prng@.wf(),
            prng is Jkiss <==> platform == Platform::Switch,
            platform == Platform::Switch || spec_seed_magnitude(seed) <= 161803398
                ==> prng@.spec_regular(),
    {
        match platform {
            Platform::Switch => Prng::Jkiss(Jkiss::from_seed(seed)),
            Platform::PC => Prng::MsCorLibRandom(MsCorLibRandom::from_seed(seed)),
        }
    }

    /// Draws one 32-bit word.
    pub fn next_u32(&mut self) -> (word: u32)
        requires
            old(self)@.wf(),
        ensures
            final(self)@ == old(self)@.spec_advance(),
            final(self)@.wf(),
            word == old(self)@.spec_word(),
            old(self)@.spec_regular() ==> final(self)@.spec_regular(),
    {
        match self {
            Prng::Jkiss(words) => words.next_u32(),
            Prng::MsCorLibRandom(generator) => generator.next_u32(),
        }
    }

    /// Draws one whole number from `lo` up to but not including `hi`. The number is inside
    /// the range where the generator is regular, and from any generator where the range is
    /// less than 2^31 - 1 wide.
    pub fn gen_range(&mut self, lo: i32, hi: i32) -> (value: i32)
        requires
            old(self)@.wf(),
            lo < hi,
        ensures
            final(self)@ == old(self)@.spec_advance(),
            final(self)@.wf(),
            value == old(self)@.spec_range(lo as int, hi as int),
            old(self)@.spec_regular() || hi - lo < 2147483647 ==> lo <= value < hi,
            old(self)@.spec_regular() ==> final(self)@.spec_regular(),
    {
        match self {
            Prng::Jkiss(words) => words.gen_range(lo, hi),
            Prng::MsCorLibRandom(generator) => generator.gen_range(lo, hi),
        }
    }

    /// Draws one binary64 value: one of the unit interval where the generator is regular.
    pub fn gen_float(&mut self) -> (fraction: Fraction)
        requires
            old(self)@.wf(),
        ensures
            final(self)@ == old(self)@.spec_advance(),
            final(self)@.wf(),
            fraction == old(self)@.spec_fraction(),
            old(self)@.spec_regular() ==> fraction.wf() && final(self)@.spec_regular(),
    {
        match self {
            Prng::Jkiss(words) => words.gen_float(),
            Prng::MsCorLibRandom(generator) => generator.gen_float(),
        }
    }
}

/// Makes the platform's generator of a seed. Every 32-bit seed makes one: the four-word
/// generator on the Switch, the subtractive generator on the PC.
pub fn get_prng(platform: Platform, seed: i32) -> (result: Result<Prng, PrngError>)
    ensures
        result matches Ok(prng) && prng@ == PrngModel::spec_from_seed(platform, seed) && prng@.wf()
            && (prng is Jkiss <==> platform == Platform::Switch) && (platform == Platform::Switch
            || spec_seed_magnitude(seed) <= 161803398 ==> prng@.spec_regular()),
{
    Ok(Prng::from_seed(platform, seed))
}

} // verus!
