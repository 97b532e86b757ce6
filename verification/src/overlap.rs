//! The pile of overlapping lines in the demo scene: which line lies on top,
//! and the depth offset of each line.
//!
//! The scene draws a row of lines over the same stretch and moves one of
//! them to the front in turn. Time enters as a tick count, six to the second.

use vstd::prelude::*;

verus! {

/// How many lines the pile holds.
pub const OVERLAP_LINES: i16 = 20;

/// After this many ticks the cycle starts over.
pub const OVERLAP_PERIOD: i16 = 39;

/// The remainder of `tick` by the period, with the sign of `tick`.
pub open spec fn phase(tick: int) -> int {
    if tick >= 0 {
        tick % (OVERLAP_PERIOD as int)
    } else {
        -((-tick) % (OVERLAP_PERIOD as int))
    }
}

/// The line on top at `tick`: it walks from the last line down to the first
/// and back up again.
pub open spec fn top_line_at(tick: int) -> int {
    let shifted = phase(tick) - OVERLAP_LINES;
    if shifted >= 0 {
        shifted
    } else {
        -shifted
    }
}

/// The depth offset of `line` when `top` is on top: lines before `top` rise
/// towards it, lines from `top` on fall away from it.
pub open spec fn depth_at(line: int, top: int) -> int {
    if line < top {
        line
    } else {
        2 * top - line
    }
}

/// The line on top at `tick`.
pub fn top_line(tick: i16) -> (top: i16)
    ensures
        top == top_line_at(tick as int),
        0 <= top <= 58,
        tick >= 0 ==> top <= OVERLAP_LINES,
{
    let wide: i32 = tick as i32;
    let phase: i32 = if wide >= 0 {
        wide % 39
    } else {
        -((-wide) % 39)
    };
    let shifted: i32 = phase - 20;
    if shifted >= 0 {
        shifted as i16
    } else {
        (-shifted) as i16
    }
}

/// The depth offset of `line` when `top` is on top.
pub fn depth_offset(line: i16, top: i16) -> (depth: i16)
    requires
        0 <= line < OVERLAP_LINES,
        0 <= top <= 58,
    ensures
        depth == depth_at(line as int, top as int),
{
    if line < top {
        line
    } else {
        top * 2 - line
    }
}

/// The depth offsets of all lines of the pile at `tick`, first line first.
pub fn overlap_depths(tick: i16) -> (depths: Vec<i16>)
    ensures
        depths@.len() == OVERLAP_LINES,
        forall|line: int|
            0 <= line < OVERLAP_LINES ==> depths@[line] == depth_at(
                line,
                top_line_at(tick as int),
            ),
{
    let top = top_line(tick);
    let mut depths: Vec<i16> = Vec::new();
    let mut line: i16 = 0;
    while line < OVERLAP_LINES
        invariant
            0 <= line <= OVERLAP_LINES,
            0 <= top <= 58,
            top == top_line_at(tick as int),
            depths@.len() == line,
            forall|k: int| 0 <= k < line ==> depths@[k] == depth_at(k, top as int),
        decreases OVERLAP_LINES - line,
    {
        depths.push(depth_offset(line, top));
        line = line + 1;
    }
    depths
}

/// The line on top has the largest depth offset of the pile, and no other
/// line has the same.
pub proof fn top_line_lies_on_top(line: int, top: int)
    requires
        0 <= line < OVERLAP_LINES,
        0 <= top < OVERLAP_LINES,
    ensures
        depth_at(top, top) == top,
        depth_at(line, top) <= depth_at(top, top),
        line != top ==> depth_at(line, top) < depth_at(top, top),
{
}

/// From startup on, the line on top is a line of the pile or, once in each
/// cycle, none, and the cycle starts over after one period.
pub proof fn top_line_cycles(tick: int)
    requires
        tick >= 0,
    ensures
        0 <= top_line_at(tick) <= OVERLAP_LINES,
        top_line_at(tick + OVERLAP_PERIOD) == top_line_at(tick),
{
    assert((tick + 39) % 39 == tick % 39) by (nonlinear_arith)
        requires
            tick >= 0,
    ;
}

} // verus!
