use vstd::prelude::*;

use rand::rngs::SmallRng;
use rand::{Rng, SeedableRng};

use crate::color::{Colors, COLOR_HIGH};

verus! {

#[verifier::external_type_specification]
#[verifier::external_body]
pub struct ExSmallRng(rand::rngs::SmallRng);

/// Draws stay below this bound, a quarter of the channels' range, so that the
/// inverted output stays bright.
pub const DRAW_BOUND: u16 = COLOR_HIGH / 4;

/// Milliseconds between two frames of the random color animation.
pub const RANDOM_FRAME_MS: u32 = 400;

/// Relies on rand's `SeedableRng::seed_from_u64` to build the generator from a
/// seed; nothing is assumed of its state.
#[verifier::external_body]
fn seeded_rng(seed: u64) -> (r: SmallRng) {
    SmallRng::seed_from_u64(seed)
}

/// Relies on rand's `Rng::gen_range` with a half-open range: the value lies in
/// `[0, bound)`. An empty range panics, hence `bound > 0`.
#[verifier::external_body]
fn draw_below(rng: &mut SmallRng, bound: u16) -> (r: u16)
    requires
        bound > 0,
    ensures
        r < bound,
{
    rng.gen_range(0..bound)
}

/// The frame of the random color animation made from three draws, taken in
/// the order red, green, blue: each channel is `COLOR_HIGH` minus its draw.
pub fn colors_from_draws(red_draw: u16, green_draw: u16, blue_draw: u16) -> (r: Colors)
    requires
        red_draw < DRAW_BOUND,
        green_draw < DRAW_BOUND,
        blue_draw < DRAW_BOUND,
    ensures
        r.red == COLOR_HIGH - red_draw,
        r.green == COLOR_HIGH - green_draw,
        r.blue == COLOR_HIGH - blue_draw,
{
    Colors { red: COLOR_HIGH - red_draw, green: COLOR_HIGH - green_draw, blue: COLOR_HIGH - blue_draw }
}

/// The random color animation: a generator seeded once, drawn from three
/// times per frame.
pub struct RandomColors {
    rng: SmallRng,
}

impl RandomColors {
    /// Seeds the generator; the same seed gives the same sequence of frames.
    pub fn new(seed: u64) -> (r: RandomColors) {
        RandomColors { rng: seeded_rng(seed) }
    }

    /// The next frame: three fresh draws below `DRAW_BOUND`, inverted, so that
    /// every channel lies in `(COLOR_HIGH - DRAW_BOUND, COLOR_HIGH]`.
    pub fn next_colors(&mut self) -> (r: Colors)
        ensures
            COLOR_HIGH - DRAW_BOUND < r.red <= COLOR_HIGH,
            COLOR_HIGH - DRAW_BOUND < r.green <= COLOR_HIGH,
            COLOR_HIGH - DRAW_BOUND < r.blue <= COLOR_HIGH,
    {
        let red_draw = draw_below(&mut self.rng, DRAW_BOUND);
        let green_draw = draw_below(&mut self.rng, DRAW_BOUND);
        let blue_draw = draw_below(&mut self.rng, DRAW_BOUND);
        colors_from_draws(red_draw, green_draw, blue_draw)
    }
}

} // verus!
