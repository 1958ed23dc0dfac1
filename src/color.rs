use vstd::prelude::*;

use crate::remap::{remap, remap_value};

verus! {

/// Lowest duty value of the color channels.
pub const COLOR_LOW: u16 = 0;

/// Highest duty value of the color channels.
pub const COLOR_HIGH: u16 = 65532;

/// Position on the wheel after reduction modulo 255.
pub open spec fn wheel_pos(pos: int) -> int {
    pos % 255
}

pub open spec fn wheel_red(pos: int) -> int {
    let w = wheel_pos(pos);
    if w < 85 {
        255 - 3 * w
    } else if w < 170 {
        0
    } else {
        3 * (w - 170)
    }
}

pub open spec fn wheel_green(pos: int) -> int {
    let w = wheel_pos(pos);
    if w < 85 {
        3 * w
    } else if w < 170 {
        255 - 3 * (w - 85)
    } else {
        0
    }
}

pub open spec fn wheel_blue(pos: int) -> int {
    let w = wheel_pos(pos);
    if w < 85 {
        0
    } else if w < 170 {
        3 * (w - 85)
    } else {
        255 - 3 * (w - 170)
    }
}

/// Red, green and blue bytes packed as `0x00RRGGBB`.
pub open spec fn pack_rgb(red: int, green: int, blue: int) -> int {
    red * 65536 + green * 256 + blue
}

/// The packed color at a position of the hue wheel.
pub open spec fn wheel_color(pos: int) -> int {
    pack_rgb(wheel_red(pos), wheel_green(pos), wheel_blue(pos))
}

pub open spec fn abs_diff(a: int, b: int) -> int {
    if a >= b { a - b } else { b - a }
}

proof fn lemma_wheel_channels_are_bytes(pos: int)
    requires
        0 <= pos,
    ensures
        0 <= wheel_red(pos) <= 255,
        0 <= wheel_green(pos) <= 255,
        0 <= wheel_blue(pos) <= 255,
{
}

proof fn lemma_unpack_rgb(red: int, green: int, blue: int)
    requires
        0 <= red <= 255,
        0 <= green <= 255,
        0 <= blue <= 255,
    ensures
        pack_rgb(red, green, blue) / 65536 == red,
        (pack_rgb(red, green, blue) / 256) % 256 == green,
        pack_rgb(red, green, blue) % 256 == blue,
{
    let c = pack_rgb(red, green, blue);
    vstd::arithmetic::div_mod::lemma_fundamental_div_mod_converse(c, 65536, red, green * 256 + blue);
    vstd::arithmetic::div_mod::lemma_fundamental_div_mod_converse(c, 256, red * 256 + green, blue);
    vstd::arithmetic::div_mod::lemma_fundamental_div_mod_converse(red * 256 + green, 256, red, green);
}

/// Hue wheel: maps a position, reduced modulo 255, to a packed `0x00RRGGBB`
/// color. Three arcs of 85 steps each fade red into green, green into blue
/// and blue back into red.
pub fn wheel(pos: u16) -> (r: u32)
    ensures
        r as int == wheel_color(pos as int),
{
    let mut w: u32 = pos as u32 % 255;
    if w < 85 {
        return (255 - w * 3) * 65536 + (w * 3) * 256;
    }
    if w < 170 {
        w -= 85;
        return (255 - w * 3) * 256 + w * 3;
    }
    w -= 170;
    (w * 3) * 65536 + (255 - w * 3)
}

/// Scales a color byte into the duty range of the color channels.
pub fn remap_colors(color: u16) -> (r: u16)
    requires
        color <= 255,
    ensures
        r as int == remap_value(color as int, 0, 255, COLOR_LOW as int, COLOR_HIGH as int),
        r <= COLOR_HIGH,
{
    proof {
        lemma_remap_color_bounded(color as int);
    }
    remap(color, 0, 255, COLOR_LOW, COLOR_HIGH)
}

proof fn lemma_remap_color_bounded(color: int)
    requires
        0 <= color <= 255,
    ensures
        0 <= remap_value(color, 0, 255, COLOR_LOW as int, COLOR_HIGH as int) <= COLOR_HIGH,
{
    crate::remap::lemma_remap_in_range(color, 0, 255, COLOR_LOW as int, COLOR_HIGH as int);
}

/// Duty values of the red, green and blue channels.
#[derive(Clone, Copy, Debug, PartialEq, Eq)]
pub struct Colors {
    pub red: u16,
    pub green: u16,
    pub blue: u16,
}

/// The duty values of the color at wheel position `pos`.
pub open spec fn wheel_duties(pos: int) -> Colors {
    Colors {
        red: remap_value(wheel_red(pos), 0, 255, COLOR_LOW as int, COLOR_HIGH as int) as u16,
        green: remap_value(wheel_green(pos), 0, 255, COLOR_LOW as int, COLOR_HIGH as int) as u16,
        blue: remap_value(wheel_blue(pos), 0, 255, COLOR_LOW as int, COLOR_HIGH as int) as u16,
    }
}

/// Fills `colors` with the duty values of wheel position `i`.
pub fn get_colors(i: u16, colors: &mut Colors)
    ensures
        *final(colors) == wheel_duties(i as int),
        final(colors).red <= COLOR_HIGH,
        final(colors).green <= COLOR_HIGH,
        final(colors).blue <= COLOR_HIGH,
{
    let new_color = wheel(i);
    proof {
        lemma_wheel_channels_are_bytes(i as int);
        lemma_unpack_rgb(wheel_red(i as int), wheel_green(i as int), wheel_blue(i as int));
    }
    let red: u16 = (new_color / 65536) as u16;
    let green: u16 = (new_color / 256 % 256) as u16;
    let blue: u16 = (new_color % 256) as u16;

    colors.blue = remap_colors(blue);
    colors.green = remap_colors(green);
    colors.red = remap_colors(red);
}

proof fn lemma_wheel_pos_step(pos: int)
    requires
        0 <= pos,
    ensures
        wheel_pos(pos) < 254 ==> wheel_pos(pos + 1) == wheel_pos(pos) + 1,
        wheel_pos(pos) == 254 ==> wheel_pos(pos + 1) == 0,
{
    let q = pos / 255;
    let w = pos % 255;
    vstd::arithmetic::div_mod::lemma_fundamental_div_mod(pos, 255);
    if w < 254 {
        vstd::arithmetic::div_mod::lemma_fundamental_div_mod_converse(pos + 1, 255, q, w + 1);
    } else {
        vstd::arithmetic::div_mod::lemma_fundamental_div_mod_converse(pos + 1, 255, q + 1, 0);
    }
}

/// At every position the three channels add up to 255, so the wheel never
/// yields black.
pub proof fn lemma_wheel_sum(pos: int)
    requires
        0 <= pos,
    ensures
        wheel_red(pos) + wheel_green(pos) + wheel_blue(pos) == 255,
        wheel_color(pos) != 0,
{
}

/// Neighbouring positions differ by at most three in each channel, also where
/// the wheel wraps around from its last position back to its first.
pub proof fn lemma_wheel_continuous(pos: int)
    requires
        0 <= pos,
    ensures
        abs_diff(wheel_red(pos), wheel_red(pos + 1)) <= 3,
        abs_diff(wheel_green(pos), wheel_green(pos + 1)) <= 3,
        abs_diff(wheel_blue(pos), wheel_blue(pos + 1)) <= 3,
{
    lemma_wheel_pos_step(pos);
}

/// The end of a sweep from 0 to 255 joins its start: positions 0 and 255 differ
/// by at most one step in each channel.
pub proof fn lemma_wheel_wraps()
    ensures
        abs_diff(wheel_red(0), wheel_red(255)) <= 3,
        abs_diff(wheel_green(0), wheel_green(255)) <= 3,
        abs_diff(wheel_blue(0), wheel_blue(255)) <= 3,
{
    assert(wheel_pos(255) == 0);
}

/// Milliseconds between two frames of the gradient animation.
pub const GRADIENT_FRAME_MS: u32 = 100;

/// Number of wheel positions in one sweep of the gradient animation.
pub const GRADIENT_STEPS: u16 = 256;

/// Each channel turned around within the duty range: `COLOR_HIGH - c`.
pub open spec fn inverted_spec(c: Colors) -> Colors {
    Colors {
        red: (COLOR_HIGH - c.red) as u16,
        green: (COLOR_HIGH - c.green) as u16,
        blue: (COLOR_HIGH - c.blue) as u16,
    }
}

impl Colors {
    /// Every channel turned around within the duty range: `COLOR_HIGH - c`.
    pub fn inverted(&self) -> (r: Colors)
        requires
            self.red <= COLOR_HIGH,
            self.green <= COLOR_HIGH,
            self.blue <= COLOR_HIGH,
        ensures
            r == inverted_spec(*self),
    {
        Colors {
            red: COLOR_HIGH - self.red,
            green: COLOR_HIGH - self.green,
            blue: COLOR_HIGH - self.blue,
        }
    }
}

/// Duty values written at step `i` of the gradient animation: the wheel color
/// at `i`, scaled into the duty range and inverted.
pub fn gradient_duties(i: u16) -> (r: Colors)
    ensures
        r == inverted_spec(wheel_duties(i as int)),
{
    let mut colors = Colors { red: 0, green: 0, blue: 0 };
    get_colors(i, &mut colors);
    colors.inverted()
}

} // verus!
