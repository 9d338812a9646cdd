//! The accent colour picker: a strip of square swatches, laid out in device
//! pixels and hit-tested against a click, and which swatch is selected.

use vstd::prelude::*;

use crate::projectm::overlay::{px, to_px, Rect};

verus! {

/// Swatch side, gap between swatches and selection ring width, in design
/// units.
pub const SWATCH_DIP: u32 = 24;
pub const GAP_DIP: u32 = 10;
pub const RING_DIP: u32 = 2;

/// Half of `d`, rounded toward zero (integer division of an `i32`).
pub open spec fn half_toward_zero(d: int) -> int {
    if d >= 0 {
        d / 2
    } else {
        -((-d) / 2)
    }
}

/// The distance from one swatch's left edge to the next one's.
pub open spec fn swatch_step(dpi: u32) -> int {
    px(SWATCH_DIP, dpi) + px(GAP_DIP, dpi)
}

/// The rectangle of swatch `index` in `bounds`: after the ring's width, one
/// step per swatch before it, centred vertically.
pub open spec fn swatch_rect_spec(index: int, bounds: Rect, dpi: u32) -> (int, int, int, int) {
    let side = px(SWATCH_DIP, dpi);
    let left = bounds.left + px(RING_DIP, dpi) + index * swatch_step(dpi);
    let top = bounds.top + half_toward_zero(bounds.bottom - bounds.top - side);
    (left, top, left + side, top + side)
}

/// Whether the swatch arithmetic for the first `count` swatches stays in
/// `i32`.
pub open spec fn swatches_fit(bounds: Rect, dpi: u32, count: int) -> bool {
    &&& 0 <= count
    &&& bounds.left + px(RING_DIP, dpi) + count * swatch_step(dpi) + px(SWATCH_DIP, dpi) <= i32::MAX
    &&& bounds.left >= i32::MIN
    &&& i32::MIN <= bounds.bottom - bounds.top - px(SWATCH_DIP, dpi) <= i32::MAX
    &&& i32::MIN <= bounds.top + half_toward_zero(bounds.bottom - bounds.top - px(SWATCH_DIP, dpi))
    &&& bounds.top + half_toward_zero(bounds.bottom - bounds.top - px(SWATCH_DIP, dpi)) + px(
        SWATCH_DIP,
        dpi,
    ) <= i32::MAX
}

/// Whether `(x, y)` lies in the swatch rectangle `r`.
pub open spec fn in_swatch(r: (int, int, int, int), x: i32, y: i32) -> bool {
    r.0 <= x < r.2 && r.1 <= y < r.3
}

/// The first of the `count` swatches from `from` on under `(x, y)`.
pub open spec fn hit_from(bounds: Rect, dpi: u32, count: int, from: int, x: i32, y: i32) -> Option<int>
    decreases count - from,
{
    if from >= count {
        None
    } else if in_swatch(swatch_rect_spec(from, bounds, dpi), x, y) {
        Some(from)
    } else {
        hit_from(bounds, dpi, count, from + 1, x, y)
    }
}

proof fn lemma_step_bounds(dpi: u32, index: int, count: int)
    requires
        0 <= index <= count,
    ensures
        0 <= index * swatch_step(dpi) <= count * swatch_step(dpi),
        swatch_step(dpi) >= 1 ==> index <= index * swatch_step(dpi),
{
    assert(0 <= px(SWATCH_DIP, dpi));
    assert(0 <= px(GAP_DIP, dpi));
    assert(0 <= index * swatch_step(dpi) <= count * swatch_step(dpi)) by (nonlinear_arith)
        requires
            0 <= index <= count,
            0 <= swatch_step(dpi),
    ;
    if swatch_step(dpi) >= 1 {
        assert(index <= index * swatch_step(dpi)) by (nonlinear_arith)
            requires
                0 <= index,
                swatch_step(dpi) >= 1,
        ;
    }
}

/// The rectangle of swatch `index`.
pub fn swatch_rect(index: usize, bounds: Rect, dpi: u32, count: usize) -> (r: Rect)
    requires
        index < count,
        swatches_fit(bounds, dpi, count as int),
    ensures
        (r.left as int, r.top as int, r.right as int, r.bottom as int) == swatch_rect_spec(
            index as int,
            bounds,
            dpi,
        ),
{
    let side = to_px(SWATCH_DIP, dpi);
    let step = side + to_px(GAP_DIP, dpi);
    let ring = to_px(RING_DIP, dpi);
    proof {
        lemma_step_bounds(dpi, index as int, count as int);
    }
    let offset: i64 = if step == 0 {
        proof {
            assert(index * swatch_step(dpi) == 0) by (nonlinear_arith)
                requires
                    swatch_step(dpi) == 0,
            ;
        }
        0
    } else {
        index as i64 * step
    };
    assert(offset == index * swatch_step(dpi));
    let left = bounds.left as i64 + ring + offset;
    let d = bounds.bottom as i64 - bounds.top as i64 - side;
    let half = if d >= 0 {
        d / 2
    } else {
        -((-d) / 2)
    };
    let top = bounds.top as i64 + half;
    Rect { left: left as i32, top: top as i32, right: (left + side) as i32, bottom: (top + side) as i32 }
}

/// The swatch under `(x, y)`, if any: the first of the `count` swatches whose
/// rectangle holds it.
pub fn hit(x: i32, y: i32, bounds: Rect, dpi: u32, count: usize) -> (h: Option<usize>)
    requires
        swatches_fit(bounds, dpi, count as int),
    ensures
        match h {
            Some(i) => hit_from(bounds, dpi, count as int, 0, x, y) == Some(i as int),
            None => hit_from(bounds, dpi, count as int, 0, x, y) is None,
        },
{
    let mut i: usize = 0;
    while i < count
        invariant
            i <= count,
            swatches_fit(bounds, dpi, count as int),
            hit_from(bounds, dpi, count as int, 0, x, y) == hit_from(bounds, dpi, count as int, i as int, x, y),
        decreases count - i,
    {
        let r = swatch_rect(i, bounds, dpi, count);
        if x >= r.left && x < r.right && y >= r.top && y < r.bottom {
            return Some(i);
        }
        i = i + 1;
    }
    None
}

/// The swatch strip's state: the selected swatch.
pub struct AccentSwatches {
    pub selected: usize,
}

impl AccentSwatches {
    /// Selects swatch `index`; returns whether the selection changed, so the
    /// caller repaints only then.
    pub fn select(&mut self, index: usize) -> (changed: bool)
        ensures
            final(self).selected == index,
            changed == (old(self).selected != index),
    {
        let changed = self.selected != index;
        self.selected = index;
        changed
    }
}

} // verus!
