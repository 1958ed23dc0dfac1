use vstd::prelude::*;

verus! {

/// Lowest duty value of the breathing channel.
pub const BREATH_LOW: u16 = 0;

/// Highest duty value of the breathing channel.
pub const BREATH_HIGH: u16 = 65535;

/// Microseconds between two frames of the breathing ramp.
pub const BREATH_FRAME_US: u32 = 100;

/// Frames in one breath: `high - low` going up, as many going down.
pub open spec fn breath_period(low: int, high: int) -> int {
    2 * (high - low)
}

/// Duty value at frame `step` of a breath: rises one unit per frame from
/// `low` to `high`, then falls one unit per frame back towards `low`.
pub open spec fn breath_duty(step: int, low: int, high: int) -> int {
    if step <= high - low {
        low + step
    } else {
        high - (step - (high - low))
    }
}

/// Number of frames in one breath between `low` and `high`.
pub fn breathing_period(low: u16, high: u16) -> (r: u32)
    requires
        low < high,
    ensures
        r as int == breath_period(low as int, high as int),
{
    2 * ((high - low) as u32)
}

/// Duty value of the breathing channel at frame `step` of a breath.
pub fn breathing_duty(step: u32, low: u16, high: u16) -> (r: u16)
    requires
        low < high,
        step < breath_period(low as int, high as int),
    ensures
        r as int == breath_duty(step as int, low as int, high as int),
        low <= r <= high,
{
    let span: u32 = (high - low) as u32;
    if step <= span {
        (low as u32 + step) as u16
    } else {
        (high as u32 - (step - span)) as u16
    }
}

/// One breath is a triangle: strictly rising up to the peak, strictly falling
/// after it, with `low` reached only at its first frame and `high` only at
/// its middle frame.
pub proof fn lemma_breath_triangle(low: int, high: int)
    requires
        0 <= low < high,
    ensures
        forall|k: int|
            0 <= k < high - low ==> #[trigger] breath_duty(k, low, high) < breath_duty(
                k + 1,
                low,
                high,
            ),
        forall|k: int|
            high - low <= k < breath_period(low, high) - 1 ==> #[trigger] breath_duty(
                k,
                low,
                high,
            ) > breath_duty(k + 1, low, high),
        forall|k: int|
            0 <= k < breath_period(low, high) ==> low <= #[trigger] breath_duty(k, low, high)
                <= high,
        forall|k: int|
            0 <= k < breath_period(low, high) ==> (#[trigger] breath_duty(k, low, high) == low
                <==> k == 0),
        forall|k: int|
            0 <= k < breath_period(low, high) ==> (#[trigger] breath_duty(k, low, high) == high
                <==> k == high - low),
{
}

} // verus!
