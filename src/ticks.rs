//! The window of recent frame times, in milliseconds, and the frame rate
//! averaged over it.

use vstd::prelude::*;

verus! {

/// The frame rate is averaged over this many frames.
pub const FPS_FRAME_COUNT: usize = 5;

/// The window after a frame that took `delta` milliseconds: the oldest time
/// leaves once the window holds more than `FPS_FRAME_COUNT` of them.
pub open spec fn next_ticks(ticks: Seq<i16>, delta: i16) -> Seq<i16> {
    if ticks.len() > FPS_FRAME_COUNT {
        ticks.drop_first().push(delta)
    } else {
        ticks.push(delta)
    }
}

/// The sum of `ticks`.
pub open spec fn tick_sum(ticks: Seq<i16>) -> int
    decreases ticks.len(),
{
    if ticks.len() == 0 {
        0
    } else {
        tick_sum(ticks.drop_last()) + ticks.last()
    }
}

/// Every running sum of `ticks`, taken from the front, fits in an `i16`.
pub open spec fn running_sums_fit(ticks: Seq<i16>) -> bool {
    forall|k: int|
        0 <= k <= ticks.len() ==> i16::MIN <= #[trigger] tick_sum(ticks.subrange(0, k)) <= i16::MAX
}

/// Integer division rounding toward zero.
pub open spec fn div_toward_zero(a: int, b: int) -> int {
    let q = (if a < 0 { -a } else { a }) / (if b < 0 { -b } else { b });
    if (a < 0) != (b < 0) {
        -q
    } else {
        q
    }
}

/// The frame rate of a window: 1000 over the window's sum divided by
/// `FPS_FRAME_COUNT`, both divisions rounding toward zero; none where a
/// running sum leaves the `i16` range or the divisor is zero.
pub open spec fn fps_of(ticks: Seq<i16>) -> Option<i16> {
    let avg = div_toward_zero(tick_sum(ticks), FPS_FRAME_COUNT as int);
    if !running_sums_fit(ticks) || avg == 0 {
        None
    } else {
        Some(div_toward_zero(1000, avg) as i16)
    }
}

/// Adds the time of the latest frame to the window.
pub fn update_tick_list(frame_ticks: &[i16], delta_time: i16) -> (ticks: Vec<i16>)
    ensures
        ticks@ == next_ticks(frame_ticks@, delta_time),
{
    let mut ticks = vstd::slice::slice_to_vec(frame_ticks);
    if ticks.len() > FPS_FRAME_COUNT {
        ticks.remove(0);
        ticks.push(delta_time);
    } else {
        ticks.push(delta_time);
    }
    assert(ticks@ =~= next_ticks(frame_ticks@, delta_time));
    ticks
}

/// The frame rate over the window.
pub fn frames_per_second(frame_ticks: &[i16]) -> (fps: Option<i16>)
    ensures
        fps == fps_of(frame_ticks@),
{
    let mut total: i16 = 0;
    let mut k: usize = 0;
    assert(frame_ticks@.subrange(0, 0) =~= seq![]);
    while k < frame_ticks.len()
        invariant
            k <= frame_ticks@.len(),
            total == tick_sum(frame_ticks@.subrange(0, k as int)),
            forall|j: int|
                0 <= j <= k ==> i16::MIN <= #[trigger] tick_sum(frame_ticks@.subrange(0, j))
                    <= i16::MAX,
        decreases frame_ticks@.len() - k,
    {
        assert(frame_ticks@.subrange(0, k + 1).drop_last() =~= frame_ticks@.subrange(0, k as int));
        let next: i32 = total as i32 + frame_ticks[k] as i32;
        if next < i16::MIN as i32 || next > i16::MAX as i32 {
            assert(!running_sums_fit(frame_ticks@)) by {
                assert(tick_sum(frame_ticks@.subrange(0, k + 1)) == next);
            }
            return None;
        }
        total = next as i16;
        k = k + 1;
    }
    assert(frame_ticks@.subrange(0, k as int) =~= frame_ticks@);
    let avg: i16 = total / (FPS_FRAME_COUNT as i16);
    if avg == 0 {
        None
    } else {
        let fps: i16 = if avg > 0 {
            1000 / avg
        } else {
            -(1000 / -avg)
        };
        Some(fps)
    }
}

} // verus!
