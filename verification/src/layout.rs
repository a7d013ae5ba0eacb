//! Screen-size bookkeeping and rectangle arithmetic for centered popups.

use vstd::prelude::*;

verus! {

/// A rectangle of terminal cells.
#[derive(Debug, Clone, Copy, PartialEq, Eq, Structural)]
pub struct Rect {
    pub x: u16,
    pub y: u16,
    pub width: u16,
    pub height: u16,
}

/// Tracks the terminal size and buckets it into small, medium and large.
#[derive(Debug, Clone, Copy, PartialEq, Eq, Structural)]
pub struct ResponsiveLayout {
    pub width: u16,
    pub height: u16,
}

impl ResponsiveLayout {
    /// Starts from the traditional 80x24 terminal.
    pub fn new() -> (r: ResponsiveLayout)
        ensures
            r.width == 80,
            r.height == 24,
    {
        ResponsiveLayout { width: 80, height: 24 }
    }

    pub fn update_size(&mut self, width: u16, height: u16)
        ensures
            final(self).width == width,
            final(self).height == height,
    {
        self.width = width;
        self.height = height;
    }

    /// Anything under 80x24 counts as small.
    pub fn is_small_screen(&self) -> (r: bool)
        ensures
            r == (self.width < 80 || self.height < 24),
    {
        self.width < 80 || self.height < 24
    }

    /// 120x40 and up counts as large.
    pub fn is_large_screen(&self) -> (r: bool)
        ensures
            r == (self.width >= 120 && self.height >= 40),
    {
        self.width >= 120 && self.height >= 40
    }
}

/// The rectangle covering the middle `percent_x` by `percent_y` of `r`.
pub open spec fn center_rect_spec(percent_x: u16, percent_y: u16, r: Rect) -> Rect {
    let w = r.width * percent_x / 100;
    let h = r.height * percent_y / 100;
    Rect {
        x: (r.x + (r.width - w) / 2) as u16,
        y: (r.y + (r.height - h) / 2) as u16,
        width: w as u16,
        height: h as u16,
    }
}

/// Center a box of the given percentage size inside a rectangle. The
/// result always lies within the rectangle it was cut from.
pub fn center_rect(percent_x: u16, percent_y: u16, r: Rect) -> (c: Rect)
    requires
        percent_x <= 100,
        percent_y <= 100,
        r.x + r.width <= 65535,
        r.y + r.height <= 65535,
    ensures
        c == center_rect_spec(percent_x, percent_y, r),
        r.x <= c.x,
        r.y <= c.y,
        c.x + c.width <= r.x + r.width,
        c.y + c.height <= r.y + r.height,
{
    proof {
        lemma_percent_bounds(r.width as int, percent_x as int);
        lemma_percent_bounds(r.height as int, percent_y as int);
    }
    let w = (r.width as u32) * (percent_x as u32) / 100;
    let h = (r.height as u32) * (percent_y as u32) / 100;
    let w16 = w as u16;
    let h16 = h as u16;
    Rect {
        x: r.x + (r.width - w16) / 2,
        y: r.y + (r.height - h16) / 2,
        width: w16,
        height: h16,
    }
}

/// `d * p / 100 <= d` for a percentage `p`.
proof fn lemma_percent_bounds(d: int, p: int)
    requires
        0 <= d < 65536,
        0 <= p <= 100,
    ensures
        0 <= d * p / 100 <= d,
{
    assert(0 <= d * p && d * p <= d * 100) by (nonlinear_arith)
        requires 0 <= d, 0 <= p <= 100;
    vstd::arithmetic::div_mod::lemma_div_pos_is_pos(d * p, 100);
    vstd::arithmetic::div_mod::lemma_div_is_ordered(d * p, d * 100, 100);
    vstd::arithmetic::div_mod::lemma_div_multiples_vanish(d, 100);
}

/// A symmetric margin.
#[derive(Debug, Clone, Copy, PartialEq, Eq, Structural)]
pub struct Margin {
    pub horizontal: u16,
    pub vertical: u16,
}

/// Build a margin.
pub fn margin(horizontal: u16, vertical: u16) -> (r: Margin)
    ensures
        r.horizontal == horizontal,
        r.vertical == vertical,
{
    Margin { horizontal, vertical }
}

} // verus!
