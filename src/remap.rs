use vstd::prelude::*;

verus! {

/// The linear interpolation of `v` from `[from_low, from_high]` into
/// `[to_low, to_high]`, truncated toward zero.
pub open spec fn remap_value(v: int, from_low: int, from_high: int, to_low: int, to_high: int) -> int {
    to_low + (v - from_low) * (to_high - to_low) / (from_high - from_low)
}

proof fn lemma_scaled_fraction_bounded(num: int, den: int, span: int)
    requires
        0 <= num <= den,
        0 < den,
        0 <= span,
    ensures
        0 <= num * span / den <= span,
{
    assert(0 <= num * span) by (nonlinear_arith)
        requires
            0 <= num,
            0 <= span,
    ;
    assert(num * span <= den * span) by (nonlinear_arith)
        requires
            num <= den,
            0 <= span,
    ;
    vstd::arithmetic::div_mod::lemma_div_is_ordered(num * span, den * span, den);
    vstd::arithmetic::div_mod::lemma_div_by_multiple(span, den);
    assert(den * span == span * den) by (nonlinear_arith);
    vstd::arithmetic::div_mod::lemma_div_pos_is_pos(num * span, den);
}

/// The remapped value stays inside the target interval.
pub proof fn lemma_remap_in_range(v: int, from_low: int, from_high: int, to_low: int, to_high: int)
    requires
        from_low < from_high,
        to_low < to_high,
        from_low <= v <= from_high,
    ensures
        to_low <= remap_value(v, from_low, from_high, to_low, to_high) <= to_high,
{
    lemma_scaled_fraction_bounded(v - from_low, from_high - from_low, to_high - to_low);
}

/// The lower end of the source interval maps exactly to the lower end of the
/// target interval.
pub proof fn lemma_remap_at_low(from_low: int, from_high: int, to_low: int, to_high: int)
    requires
        from_low < from_high,
        to_low < to_high,
    ensures
        remap_value(from_low, from_low, from_high, to_low, to_high) == to_low,
{
    assert(0 * (to_high - to_low) == 0);
}

/// Remapping never decreases: a larger value never maps below a smaller one.
pub proof fn lemma_remap_monotonic(
    v: int,
    w: int,
    from_low: int,
    from_high: int,
    to_low: int,
    to_high: int,
)
    requires
        from_low < from_high,
        to_low < to_high,
        from_low <= v <= w <= from_high,
    ensures
        remap_value(v, from_low, from_high, to_low, to_high) <= remap_value(
            w,
            from_low,
            from_high,
            to_low,
            to_high,
        ),
{
    let span = to_high - to_low;
    assert((v - from_low) * span <= (w - from_low) * span) by (nonlinear_arith)
        requires
            v - from_low <= w - from_low,
            0 <= span,
    ;
    vstd::arithmetic::div_mod::lemma_div_is_ordered(
        (v - from_low) * span,
        (w - from_low) * span,
        from_high - from_low,
    );
}

/// Maps `value` from the closed interval `[from_low, from_high]` linearly
/// into `[to_low, to_high]`, truncating toward zero.
pub fn remap(value: u16, from_low: u16, from_high: u16, to_low: u16, to_high: u16) -> (r: u16)
    requires
        from_low < from_high,
        to_low < to_high,
        from_low <= value <= from_high,
    ensures
        r as int == remap_value(value as int, from_low as int, from_high as int, to_low as int, to_high as int),
{
    let from_range: u64 = (from_high - from_low) as u64;
    let to_range: u64 = (to_high - to_low) as u64;
    let offset: u64 = (value - from_low) as u64;
    proof {
        lemma_scaled_fraction_bounded(offset as int, from_range as int, to_range as int);
        assert(offset * to_range <= 65535 * 65535) by (nonlinear_arith)
            requires
                offset <= 65535,
                to_range <= 65535,
        ;
    }
    let scaled: u64 = offset * to_range / from_range;
    (to_low as u64 + scaled) as u16
}

} // verus!
