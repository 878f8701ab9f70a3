//! The source of new colors: a seeded pseudo-random generator whose draws
//! are turned into dampened colors.
use tinyrand::{RandRange, Seeded, Wyrand};
use vstd::prelude::*;

use crate::garland::{dampened, no_pastel, Color};

verus! {

/// Seed of the generator, fixed at build time.
pub const RNG_SEED: u64 = 42;

/// Every channel of a raw color is drawn below this bound.
pub const COLOR_AMPLITUDE: u16 = 10;

#[verifier::external_type_specification]
#[verifier::external_body]
pub struct ExWyrand(tinyrand::Wyrand);

/// The value of the `index`-th draw (counting from 0) from `0..limit` made
/// by a generator seeded with `seed`, when every earlier draw used the same
/// `limit`.
pub uninterp spec fn seeded_draw(seed: u64, limit: u16, index: nat) -> u16;

/// The raw color made of the draws `3 * k`, `3 * k + 1` and `3 * k + 2`:
/// red, then green, then blue.
pub open spec fn raw_at(seed: u64, limit: u16, k: nat) -> Color {
    Color {
        r: seeded_draw(seed, limit, 3 * k) as u8,
        g: seeded_draw(seed, limit, 3 * k + 1) as u8,
        b: seeded_draw(seed, limit, 3 * k + 2) as u8,
    }
}

/// Whether every channel of `c` lies below `amplitude`.
pub open spec fn within(c: Color, amplitude: nat) -> bool {
    c.r < amplitude && c.g < amplitude && c.b < amplitude
}

/// Draws colors from a generator that it alone owns.
pub struct ColorGenerator {
    rng: Wyrand,
    seed: u64,
    amplitude: u16,
    drawn: Ghost<nat>,
}

/// Relies on tinyrand's `Seeded::seed` for `Wyrand`: a generator started
/// from `seed`, which has made no draw yet. It records the seed and the
/// bound that all of its draws will use.
#[verifier::external_body]
fn seeded(seed: u64, amplitude: u16) -> (g: ColorGenerator)
    ensures
        g.seed == seed,
        g.amplitude == amplitude,
        g.drawn@ == 0,
{
    ColorGenerator { rng: <Wyrand as Seeded>::seed(seed), seed, amplitude, drawn: Ghost(0) }
}

/// Relies on tinyrand's `RandRange<u16>::next_range` on `Wyrand`: the next
/// value of the seeded sequence of draws from `0..amplitude`, which lies in
/// that range; it panics on an empty range. Only `seeded` and this call
/// write the generator's fields: the generator is started from the recorded
/// seed and advanced only here, always with the recorded bound, so the draw
/// is fixed by the seed, the bound and the number of draws before it.
#[verifier::external_body]
fn draw(g: &mut ColorGenerator) -> (r: u16)
    requires
        old(g).amplitude > 0,
    ensures
        r == seeded_draw(old(g).seed, old(g).amplitude, old(g).drawn@),
        r < old(g).amplitude,
        final(g).drawn@ == old(g).drawn@ + 1,
        final(g).seed == old(g).seed,
        final(g).amplitude == old(g).amplitude,
{
    g.rng.next_range(0..g.amplitude)
}

impl ColorGenerator {
    /// The seed the generator was started from.
    pub closed spec fn seed(&self) -> u64 {
        self.seed
    }

    /// The bound below which every channel is drawn.
    pub closed spec fn amplitude(&self) -> u16 {
        self.amplitude
    }

    /// How many colors have been drawn so far.
    pub closed spec fn colors_drawn(&self) -> nat {
        self.drawn@ / 3
    }

    /// The bound leaves room for at least one value and fits in a channel,
    /// and the draws made so far form whole colors.
    pub closed spec fn wf(&self) -> bool {
        0 < self.amplitude <= 256 && self.drawn@ % 3 == 0
    }

    /// A generator seeded with `seed` that draws channels below `amplitude`.
    pub fn new(seed: u64, amplitude: u16) -> (g: Self)
        requires
            0 < amplitude <= 256,
        ensures
            g.seed() == seed,
            g.amplitude() == amplitude,
            g.colors_drawn() == 0,
            g.wf(),
    {
        seeded(seed, amplitude)
    }

    /// Draw a raw color: the next three draws, for red, green and blue.
    pub fn next_raw(&mut self) -> (c: Color)
        requires
            old(self).wf(),
        ensures
            final(self).wf(),
            final(self).seed() == old(self).seed(),
            final(self).amplitude() == old(self).amplitude(),
            final(self).colors_drawn() == old(self).colors_drawn() + 1,
            c == raw_at(old(self).seed(), old(self).amplitude(), old(self).colors_drawn()),
            within(c, old(self).amplitude() as nat),
    {
        let ghost k = self.drawn@ / 3;
        assert(self.drawn@ == 3 * k);
        let r = draw(self);
        let g = draw(self);
        let b = draw(self);
        assert(self.drawn@ == 3 * (k + 1));
        assert(self.drawn@ / 3 == k + 1);
        Color { r: r as u8, g: g as u8, b: b as u8 }
    }

    /// Draw a raw color and dampen it: the next color of the animation.
    pub fn next_color(&mut self) -> (c: Color)
        requires
            old(self).wf(),
        ensures
            final(self).wf(),
            final(self).seed() == old(self).seed(),
            final(self).amplitude() == old(self).amplitude(),
            final(self).colors_drawn() == old(self).colors_drawn() + 1,
            c == dampened(raw_at(old(self).seed(), old(self).amplitude(), old(self).colors_drawn())),
            within(c, old(self).amplitude() as nat),
    {
        let raw = self.next_raw();
        no_pastel(raw)
    }
}

} // verus!
