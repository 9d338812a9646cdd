//! The projectM surface's hover overlay: a small row of buttons at the
//! top-right that pop the visualization out, take it fullscreen or hide it,
//! laid out in device pixels and hit-tested against a pointer position.

use vstd::prelude::*;

verus! {

/// A rectangle in device pixels: `left`/`top` inclusive, `right`/`bottom`
/// exclusive.
#[derive(Debug, Clone, Copy, PartialEq, Eq, Structural)]
pub struct Rect {
    pub left: i32,
    pub top: i32,
    pub right: i32,
    pub bottom: i32,
}

/// Whether `(x, y)` lies in `r`.
pub open spec fn contains(r: Rect, x: i32, y: i32) -> bool {
    r.left <= x < r.right && r.top <= y < r.bottom
}

/// What an overlay button asks the shell to do.
#[derive(Debug, Clone, Copy, PartialEq, Eq, Structural)]
pub enum Action {
    /// Dock the visualization into its own window.
    PopOut,
    /// Cover a monitor with it.
    Fullscreen,
    /// Hide it.
    Hide,
}

/// One laid-out overlay button, in device pixels.
#[derive(Debug, Clone, Copy, PartialEq, Eq, Structural)]
pub struct Button {
    pub action: Action,
    pub rect: Rect,
}

/// Button size and insets, in design units (1/96 inch).
pub const WIDTH_DIP: u32 = 76;
pub const HEIGHT_DIP: u32 = 22;
pub const MARGIN_DIP: u32 = 6;
pub const GAP_DIP: u32 = 4;

/// Design units as device pixels at `dpi`, rounded to the nearest pixel.
pub open spec fn px(units: u32, dpi: u32) -> int {
    (units * dpi + 48) / 96
}

/// The overlay action at position `i` of the row, left to right.
pub open spec fn action_at(i: int) -> Action {
    if i == 0 {
        Action::PopOut
    } else if i == 1 {
        Action::Fullscreen
    } else {
        Action::Hide
    }
}

/// The left edge of button `i`: the row ends one margin from the right.
pub open spec fn button_left(bounds: Rect, dpi: u32, i: int) -> int {
    let width = px(WIDTH_DIP, dpi);
    let gap = px(GAP_DIP, dpi);
    bounds.right - px(MARGIN_DIP, dpi) - (3 * width + 2 * gap) + i * (width + gap)
}

/// Whether the overlay's pixel arithmetic stays in `i32` for `bounds`.
pub open spec fn layout_fits(bounds: Rect, dpi: u32) -> bool {
    &&& button_left(bounds, dpi, 0) >= i32::MIN
    &&& bounds.right - px(MARGIN_DIP, dpi) <= i32::MAX
    &&& bounds.top + px(MARGIN_DIP, dpi) + px(HEIGHT_DIP, dpi) <= i32::MAX
    &&& bounds.right - px(MARGIN_DIP, dpi) >= i32::MIN
}

/// Button `i` of the row laid out in `bounds` at `dpi`.
pub open spec fn button_at(bounds: Rect, dpi: u32, i: int) -> Button {
    Button {
        action: action_at(i),
        rect: Rect {
            left: button_left(bounds, dpi, i) as i32,
            top: (bounds.top + px(MARGIN_DIP, dpi)) as i32,
            right: (button_left(bounds, dpi, i) + px(WIDTH_DIP, dpi)) as i32,
            bottom: (bounds.top + px(MARGIN_DIP, dpi) + px(HEIGHT_DIP, dpi)) as i32,
        },
    }
}

/// The overlay's buttons laid out in `bounds` at `dpi`, left to right.
pub open spec fn buttons_spec(bounds: Rect, dpi: u32) -> Seq<Button> {
    seq![button_at(bounds, dpi, 0), button_at(bounds, dpi, 1), button_at(bounds, dpi, 2)]
}

/// Design units as device pixels.
pub(crate) fn to_px(units: u32, dpi: u32) -> (p: i64)
    requires
        units <= 100,
    ensures
        p == px(units, dpi),
        0 <= p <= 4_500_000_000,
{
    assert(units * dpi <= 429_496_729_500) by (nonlinear_arith)
        requires
            units <= 100,
            dpi <= 4_294_967_295u64,
    ;
    let product = units as u64 * dpi as u64;
    ((product + 48) / 96) as i64
}

/// Whether the overlay can be laid out in `bounds` at `dpi` with its pixel
/// arithmetic staying in `i32`.
pub fn overlay_fits(bounds: Rect, dpi: u32) -> (r: bool)
    ensures
        r == layout_fits(bounds, dpi),
{
    let width = to_px(WIDTH_DIP, dpi);
    let height = to_px(HEIGHT_DIP, dpi);
    let margin = to_px(MARGIN_DIP, dpi);
    let gap = to_px(GAP_DIP, dpi);
    let right = bounds.right as i64 - margin;
    let first = right - (3 * width + 2 * gap);
    let bottom = bounds.top as i64 + margin + height;
    first >= i32::MIN as i64 && right <= i32::MAX as i64 && bottom <= i32::MAX as i64 && right
        >= i32::MIN as i64
}

/// Lays the buttons out along the top-right of `bounds`, left to right:
/// pop out, fullscreen, hide.
pub fn buttons(bounds: Rect, dpi: u32) -> (b: Vec<Button>)
    requires
        layout_fits(bounds, dpi),
    ensures
        b@ == buttons_spec(bounds, dpi),
        b@.len() == 3,
        forall|i: int|
            0 <= i < 3 ==> {
                &&& (#[trigger] b@[i]).action == action_at(i)
                &&& b@[i].rect.left == button_left(bounds, dpi, i)
                &&& b@[i].rect.right == button_left(bounds, dpi, i) + px(WIDTH_DIP, dpi)
                &&& b@[i].rect.top == bounds.top + px(MARGIN_DIP, dpi)
                &&& b@[i].rect.bottom == bounds.top + px(MARGIN_DIP, dpi) + px(HEIGHT_DIP, dpi)
            },
{
    let width = to_px(WIDTH_DIP, dpi);
    let height = to_px(HEIGHT_DIP, dpi);
    let margin = to_px(MARGIN_DIP, dpi);
    let gap = to_px(GAP_DIP, dpi);
    let total = width * 3 + gap * 2;
    let top = bounds.top as i64 + margin;
    let mut left = bounds.right as i64 - margin - total;
    let mut b: Vec<Button> = Vec::new();
    let mut i: usize = 0;
    while i < 3
        invariant
            i <= 3,
            b@.len() == i,
            width == px(WIDTH_DIP, dpi),
            height == px(HEIGHT_DIP, dpi),
            margin == px(MARGIN_DIP, dpi),
            gap == px(GAP_DIP, dpi),
            0 <= width <= 4_500_000_000,
            0 <= gap <= 4_500_000_000,
            top == bounds.top + margin,
            left == button_left(bounds, dpi, i as int),
            layout_fits(bounds, dpi),
            forall|k: int|
                0 <= k < i ==> {
                    &&& (#[trigger] b@[k]).action == action_at(k)
                    &&& b@[k].rect.left == button_left(bounds, dpi, k)
                    &&& b@[k].rect.right == button_left(bounds, dpi, k) + px(WIDTH_DIP, dpi)
                    &&& b@[k].rect.top == bounds.top + px(MARGIN_DIP, dpi)
                    &&& b@[k].rect.bottom == bounds.top + px(MARGIN_DIP, dpi) + px(HEIGHT_DIP, dpi)
                },
        decreases 3 - i,
    {
        let action = if i == 0 {
            Action::PopOut
        } else if i == 1 {
            Action::Fullscreen
        } else {
            Action::Hide
        };
        let rect = Rect {
            left: left as i32,
            top: top as i32,
            right: (left + width) as i32,
            bottom: (top + height) as i32,
        };
        b.push(Button { action, rect });
        left = left + width + gap;
        i = i + 1;
    }
    b
}

/// The action of the first button of `buttons` under `(x, y)`.
pub open spec fn hit_spec(buttons: Seq<Button>, x: i32, y: i32) -> Option<Action>
    decreases buttons.len(),
{
    if buttons.len() == 0 {
        None
    } else if contains(buttons[0].rect, x, y) {
        Some(buttons[0].action)
    } else {
        hit_spec(buttons.drop_first(), x, y)
    }
}

/// The action under `(x, y)`, if any.
pub fn hit(buttons: &Vec<Button>, x: i32, y: i32) -> (a: Option<Action>)
    ensures
        a == hit_spec(buttons@, x, y),
{
    let mut i: usize = 0;
    proof {
        assert(buttons@.skip(0) =~= buttons@);
    }
    while i < buttons.len()
        invariant
            i <= buttons@.len(),
            hit_spec(buttons@, x, y) == hit_spec(buttons@.skip(i as int), x, y),
        decreases buttons@.len() - i,
    {
        let rect = buttons[i].rect;
        if rect.left <= x && x < rect.right && rect.top <= y && y < rect.bottom {
            return Some(buttons[i].action);
        }
        proof {
            assert(buttons@.skip(i as int).drop_first() =~= buttons@.skip(i + 1));
        }
        i = i + 1;
    }
    None
}

/// The button's label.
pub fn label(action: Action) -> (s: &'static str)
    ensures
        s@ == match action {
            Action::PopOut => "Pop out"@,
            Action::Fullscreen => "Fullscreen"@,
            Action::Hide => "Hide"@,
        },
{
    match action {
        Action::PopOut => "Pop out",
        Action::Fullscreen => "Fullscreen",
        Action::Hide => "Hide",
    }
}

/// On the laid-out overlay, a point inside a button hits that button's
/// action, and a point in no button hits nothing.
pub proof fn lemma_hit_finds_the_button(bounds: Rect, dpi: u32, b: Seq<Button>, x: i32, y: i32)
    requires
        layout_fits(bounds, dpi),
        b.len() == 3,
        forall|i: int|
            0 <= i < 3 ==> {
                &&& (#[trigger] b[i]).action == action_at(i)
                &&& b[i].rect.left == button_left(bounds, dpi, i)
                &&& b[i].rect.right == button_left(bounds, dpi, i) + px(WIDTH_DIP, dpi)
                &&& b[i].rect.top == bounds.top + px(MARGIN_DIP, dpi)
                &&& b[i].rect.bottom == bounds.top + px(MARGIN_DIP, dpi) + px(HEIGHT_DIP, dpi)
            },
    ensures
        forall|i: int| 0 <= i < 3 && contains((#[trigger] b[i]).rect, x, y) ==> hit_spec(b, x, y) == Some(
            action_at(i),
        ),
        (forall|i: int| 0 <= i < 3 ==> !contains((#[trigger] b[i]).rect, x, y)) ==> hit_spec(b, x, y)
            is None,
{
    reveal_with_fuel(hit_spec, 4);
    assert(b.drop_first().drop_first().drop_first().len() == 0);
    assert(b.drop_first()[0] == b[1]);
    assert(b.drop_first().drop_first()[0] == b[2]);
    // Buttons sit side by side, each left edge past the previous right edge.
    assert(button_left(bounds, dpi, 1) >= button_left(bounds, dpi, 0) + px(WIDTH_DIP, dpi));
    assert(button_left(bounds, dpi, 2) >= button_left(bounds, dpi, 1) + px(WIDTH_DIP, dpi));
}

} // verus!
