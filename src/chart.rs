//! Mapping a window of percentage samples to chart coordinates.

use crate::sampler::FULL_SCALE;
use crate::window::SlidingWindow;
use vstd::prelude::*;

verus! {

/// How many of the most recent samples a chart shows at once.
pub const DISPLAY_SPAN: usize = 50;

/// The x extent used for a window of `len` samples: at least one, so that
/// an empty window still gives a non-degenerate axis.
pub open spec fn x_extent(len: nat) -> nat {
    if len == 0 {
        1
    } else {
        len
    }
}

/// The visible x range for a window of `len` samples: the last `span`
/// positions once the window is longer than `span`, else everything from 0.
pub open spec fn x_bounds_spec(len: nat, span: nat) -> (nat, nat) {
    let n = x_extent(len);
    if n > span {
        ((n - span) as nat, n)
    } else {
        (0, n)
    }
}

/// The points of a chart: each sample paired with its position in the window.
pub open spec fn points_spec(s: Seq<u64>) -> Seq<(usize, u64)> {
    Seq::new(s.len(), |i: int| (i as usize, s[i]))
}

/// A chart ready to draw: points, x range and a fixed y range of zero to one
/// hundred percent, in basis points.
#[derive(Debug, PartialEq, Eq)]
pub struct ChartSpec {
    pub points: Vec<(usize, u64)>,
    pub x_min: usize,
    pub x_max: usize,
    pub y_min: u64,
    pub y_max: u64,
}

/// Everything a chart holds, as plain values.
pub open spec fn chart_view(c: &ChartSpec) -> (Seq<(usize, u64)>, nat, nat, nat, nat) {
    (c.points@, c.x_min as nat, c.x_max as nat, c.y_min as nat, c.y_max as nat)
}

/// The chart that a window with contents `s` yields at display span `span`.
pub open spec fn project_spec(s: Seq<u64>, span: nat) -> (
    Seq<(usize, u64)>,
    nat,
    nat,
    nat,
    nat,
) {
    let b = x_bounds_spec(s.len(), span);
    (points_spec(s), b.0, b.1, 0, FULL_SCALE as nat)
}

/// The visible x range for a window of `len` samples.
pub fn x_bounds(len: usize, span: usize) -> (r: (usize, usize))
    ensures
        r.0 as nat == x_bounds_spec(len as nat, span as nat).0,
        r.1 as nat == x_bounds_spec(len as nat, span as nat).1,
{
    let n: usize = if len == 0 {
        1
    } else {
        len
    };
    if n > span {
        (n - span, n)
    } else {
        (0, n)
    }
}

/// Projects a window of percentage samples onto a chart shown `span`
/// samples wide.
pub fn project(window: &SlidingWindow<u64>, span: usize) -> (r: ChartSpec)
    ensures
        chart_view(&r) == project_spec(window@, span as nat),
{
    let points = window.indexed();
    assert(points@ =~= points_spec(window@));
    let (x_min, x_max) = x_bounds(window.len(), span);
    ChartSpec { points, x_min, x_max, y_min: 0, y_max: FULL_SCALE }
}

/// A window's projection depends on its contents and the span alone, so
/// projecting an unchanged window again gives the same chart.
pub proof fn lemma_project_idempotent(a: Seq<u64>, b: Seq<u64>, span: nat)
    requires
        a == b,
    ensures
        project_spec(a, span) == project_spec(b, span),
{
}

/// With `n` the window's extent (its length, or one when empty), the x
/// range of a projection is `[0, n]` while `n` fits the span and
/// `[n - span, n]` after; for a positive span it is never empty.
pub proof fn lemma_x_bounds_scroll(len: nat, span: nat)
    ensures
        x_extent(len) <= span ==> x_bounds_spec(len, span) == (0nat, x_extent(len)),
        x_extent(len) > span ==> x_bounds_spec(len, span) == (
            (x_extent(len) - span) as nat,
            x_extent(len),
        ),
        x_bounds_spec(0, span).1 == 1,
        span > 0 ==> x_bounds_spec(len, span).0 < x_bounds_spec(len, span).1,
{
}

} // verus!
