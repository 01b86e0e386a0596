//! Which segment of a ring an angle falls into.
use vstd::prelude::*;

verus! {

/// One full revolution in the fixed-point unit of angles.
///
/// An angle `t` (a `u64`) stands for `-pi + 2 * pi * t / TURN`, measured
/// clockwise from the leftward direction: `0` is due left, `TURN / 4` due
/// down, `TURN / 2` due right and `3 * TURN / 4` due up (y grows upward in
/// this reading; a host with y growing downward sees it mirrored).
/// Values at or beyond `TURN` come from rounding at the end of a revolution.
pub const TURN: u64 = 0x1_0000_0000;

/// The segment that angle `turn` falls into on a ring of `count` equal
/// segments, segment 0 starting at angle 0: `floor(turn * count / TURN)`,
/// clamped to the last segment.
pub open spec fn segment_of(turn: int, count: int) -> int {
    let raw = turn * count / TURN as int;
    if raw < count {
        raw
    } else {
        count - 1
    }
}

/// Segment of the ring of `count` segments under angle `turn`.
pub fn segment_number(turn: u64, count: usize) -> (segment: usize)
    requires
        count >= 1,
    ensures
        segment == segment_of(turn as int, count as int),
        segment < count,
{
    assert((turn as int) * (count as int) <= u64::MAX as int * u64::MAX as int) by (nonlinear_arith);
    let raw: u128 = (turn as u128) * (count as u128) / (TURN as u128);
    if raw < count as u128 {
        raw as usize
    } else {
        count - 1
    }
}

/// Every angle lies in one of the ring's segments.
pub proof fn lemma_segment_in_ring(turn: int, count: int)
    requires
        turn >= 0,
        count >= 1,
    ensures
        0 <= segment_of(turn, count) < count,
{
    assert(turn * count >= 0) by (nonlinear_arith)
        requires
            turn >= 0,
            count >= 1,
    ;
}

/// The ring starts at angle 0: that angle lies in segment 0.
pub proof fn lemma_segment_start(count: int)
    requires
        count >= 1,
    ensures
        segment_of(0, count) == 0,
{
}

/// Segments follow the angle: a larger angle never falls into an earlier
/// segment.
pub proof fn lemma_segment_monotonic(a: int, b: int, count: int)
    requires
        0 <= a <= b,
        count >= 1,
    ensures
        segment_of(a, count) <= segment_of(b, count),
{
    assert(a * count <= b * count) by (nonlinear_arith)
        requires
            0 <= a <= b,
            count >= 1,
    ;
    vstd::arithmetic::div_mod::lemma_div_is_ordered(a * count, b * count, TURN as int);
    lemma_segment_in_ring(a, count);
}

} // verus!
