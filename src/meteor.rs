use vstd::prelude::*;

use crate::remap::{remap, remap_value};

verus! {

/// Largest sample of a brightness curve.
pub const CURVE_MAX: u16 = 4095;

/// Lowest duty value of the trail channels.
pub const TRAIL_LOW: u16 = 0;

/// Highest duty value of the trail channels.
pub const TRAIL_HIGH: u16 = 65535;

/// Number of channels the trail runs across.
pub const TRAIL_CHANNELS: usize = 10;

/// Number of frames in one pass of the trail.
pub const TRAIL_FRAMES: usize = 20;

/// Milliseconds between two frames of the trail.
pub const TRAIL_FRAME_MS: u32 = 50;

/// The brightness profile of the meteor: dark, a bright head, a fading tail,
/// and dark again.
pub open spec fn meteor_curve_spec() -> Seq<u16> {
    seq![
        0u16, 0, 0, 0, 0, 0, 0, 0, 0, 0, 4095, 2047, 1023, 512, 256, 64, 32, 16, 8, 0, 0, 0, 0,
        0, 0, 0, 0, 0, 0,
    ]
}

/// Every sample of the curve lies in `[0, CURVE_MAX]`.
pub open spec fn curve_in_range(curve: Seq<u16>) -> bool {
    forall|k: int| 0 <= k < curve.len() ==> #[trigger] curve[k] <= CURVE_MAX
}

/// The duty value that a curve sample stands for.
pub open spec fn sample_duty(sample: u16) -> int {
    remap_value(sample as int, 0, CURVE_MAX as int, TRAIL_LOW as int, TRAIL_HIGH as int)
}

/// Forward pass, frame `frame`: channel `c` shows sample `frame + c`.
pub open spec fn forward_pass(curve: Seq<u16>, frame: int, channels: int) -> Seq<int> {
    Seq::new(channels as nat, |c: int| sample_duty(curve[frame + c]))
}

/// Reverse pass, frame `frame`: the channel `channels - 1 - j` shows sample
/// `frame + j`.
pub open spec fn reverse_pass(curve: Seq<u16>, frame: int, channels: int) -> Seq<int> {
    Seq::new(channels as nat, |c: int| sample_duty(curve[frame + (channels - 1 - c)]))
}

/// The meteor's brightness curve.
pub fn meteor_curve() -> (r: Vec<u16>)
    ensures
        r@ == meteor_curve_spec(),
{
    let r: Vec<u16> = vec![
        0, 0, 0, 0, 0, 0, 0, 0, 0, 0, 4095, 2047, 1023, 512, 256, 64, 32, 16, 8, 0, 0, 0, 0, 0,
        0, 0, 0, 0, 0,
    ];
    assert(r@ =~= meteor_curve_spec());
    r
}

/// Duty values, one per channel in channel order, of frame `frame` of the
/// forward pass (`reverse == false`) or of the reverse pass.
pub fn trail_frame(curve: &Vec<u16>, frame: usize, channels: usize, reverse: bool) -> (r: Vec<u16>)
    requires
        frame + channels <= curve@.len(),
        curve_in_range(curve@),
    ensures
        r@.len() == channels,
        !reverse ==> r@.map_values(|d: u16| d as int) == forward_pass(curve@, frame as int, channels as int),
        reverse ==> r@.map_values(|d: u16| d as int) == reverse_pass(curve@, frame as int, channels as int),
{
    let mut r: Vec<u16> = Vec::new();
    let len: usize = curve.len();
    let mut c: usize = 0;
    while c < channels
        invariant
            c <= channels,
            len == curve@.len(),
            frame + channels <= curve@.len(),
            curve_in_range(curve@),
            r@.len() == c,
            forall|k: int|
                0 <= k < c ==> #[trigger] r@[k] as int == (if reverse {
                    sample_duty(curve@[frame + (channels - 1 - k)])
                } else {
                    sample_duty(curve@[frame + k])
                }),
        decreases channels - c,
    {
        let index: usize = if reverse {
            frame + (channels - 1 - c)
        } else {
            frame + c
        };
        let duty = remap(curve[index], 0, CURVE_MAX, TRAIL_LOW, TRAIL_HIGH);
        r.push(duty);
        c += 1;
    }
    if reverse {
        assert(r@.map_values(|d: u16| d as int) =~= reverse_pass(curve@, frame as int, channels as int));
    } else {
        assert(r@.map_values(|d: u16| d as int) =~= forward_pass(curve@, frame as int, channels as int));
    }
    r
}

/// The meteor animation's frame `step` of one back-and-forth cycle: the first
/// `TRAIL_FRAMES` steps run the forward pass, the next `TRAIL_FRAMES` the
/// reverse pass.
pub fn meteor_frame(step: usize) -> (r: Vec<u16>)
    requires
        step < 2 * TRAIL_FRAMES,
    ensures
        r@.len() == TRAIL_CHANNELS,
        step < TRAIL_FRAMES ==> r@.map_values(|d: u16| d as int) == forward_pass(
            meteor_curve_spec(),
            step as int,
            TRAIL_CHANNELS as int,
        ),
        step >= TRAIL_FRAMES ==> r@.map_values(|d: u16| d as int) == reverse_pass(
            meteor_curve_spec(),
            step - TRAIL_FRAMES,
            TRAIL_CHANNELS as int,
        ),
{
    let curve = meteor_curve();
    assert(curve_in_range(curve@));
    if step < TRAIL_FRAMES {
        trail_frame(&curve, step, TRAIL_CHANNELS, false)
    } else {
        trail_frame(&curve, step - TRAIL_FRAMES, TRAIL_CHANNELS, true)
    }
}

/// The reverse pass is the forward pass mirrored: at the same frame index it
/// gives every channel what the forward pass gives the opposite channel.
pub proof fn lemma_trail_symmetric(curve: Seq<u16>, frame: int, channels: int)
    requires
        0 <= frame,
        0 <= channels,
        frame + channels <= curve.len(),
    ensures
        reverse_pass(curve, frame, channels) == forward_pass(curve, frame, channels).reverse(),
        forall|c: int|
            0 <= c < channels ==> #[trigger] reverse_pass(curve, frame, channels)[c] == forward_pass(
                curve,
                frame,
                channels,
            )[channels - 1 - c],
{
    assert(reverse_pass(curve, frame, channels) =~= forward_pass(curve, frame, channels).reverse());
}

/// Milliseconds each LED of the chase light stays lit.
pub const CHASE_STEP_MS: u32 = 100;

/// The LED lit at step `step` of the chase light's cycle over `leds` LEDs:
/// first from the last LED down to the first, then from the first up to the
/// last.
pub fn chase_led(step: usize, leds: usize) -> (r: usize)
    requires
        step < 2 * leds,
    ensures
        r < leds,
        step < leds ==> r == leds - 1 - step,
        step >= leds ==> r == step - leds,
{
    if step < leds {
        leds - 1 - step
    } else {
        step - leds
    }
}

} // verus!
