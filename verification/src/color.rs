//! Colors as plain values, and integer color interpolation.

use vstd::prelude::*;
use crate::easing::EASE_SCALE;

verus! {

/// A terminal color: either a true-color triple or one of the named
/// palette colors that particles use.
#[derive(Debug, Clone, Copy, PartialEq, Eq, Structural)]
pub enum Color {
    Rgb(u8, u8, u8),
    Red,
    Green,
    Blue,
    Yellow,
    Magenta,
    Cyan,
}

/// One channel eased `t / EASE_SCALE` of the way from `a` towards `b`.
pub open spec fn lerp_channel(a: u8, b: u8, t: int) -> int {
    if b >= a {
        a + (b - a) * t / (EASE_SCALE as int)
    } else {
        a - (a - b) * t / (EASE_SCALE as int)
    }
}

/// The blend of two colors at progress `t`: channel-wise for true-color
/// pairs, a halfway cut-over for anything else.
pub open spec fn interpolate_color_spec(start: Color, end: Color, t: int) -> Color {
    match (start, end) {
        (Color::Rgb(r1, g1, b1), Color::Rgb(r2, g2, b2)) => Color::Rgb(
            lerp_channel(r1, r2, t) as u8,
            lerp_channel(g1, g2, t) as u8,
            lerp_channel(b1, b2, t) as u8,
        ),
        _ => if t < EASE_SCALE / 2 {
            start
        } else {
            end
        },
    }
}

/// `d * t / EASE_SCALE` stays within `[0, d]` for progress in the unit
/// range.
proof fn lemma_channel_step_bounds(d: int, t: int)
    requires
        0 <= d <= 255,
        0 <= t <= EASE_SCALE,
    ensures
        0 <= d * t / (EASE_SCALE as int) <= d,
{
    let s = EASE_SCALE as int;
    assert(0 <= d * t && d * t <= d * s) by (nonlinear_arith)
        requires 0 <= d, 0 <= t <= s;
    vstd::arithmetic::div_mod::lemma_div_is_ordered(d * t, d * s, s);
    vstd::arithmetic::div_mod::lemma_div_multiples_vanish(d, s);
    vstd::arithmetic::div_mod::lemma_div_pos_is_pos(d * t, s);
}

fn lerp_channel_exec(a: u8, b: u8, t: i64) -> (r: u8)
    requires
        0 <= t <= EASE_SCALE,
    ensures
        r == lerp_channel(a, b, t as int),
{
    if b >= a {
        let d = (b - a) as i64;
        proof {
            lemma_channel_step_bounds(d as int, t as int);
        }
        a + (d * t / EASE_SCALE) as u8
    } else {
        let d = (a - b) as i64;
        proof {
            lemma_channel_step_bounds(d as int, t as int);
        }
        a - (d * t / EASE_SCALE) as u8
    }
}

/// Blend `start` towards `end` by `t / EASE_SCALE`.
pub fn interpolate_color(start: Color, end: Color, t: i64) -> (r: Color)
    requires
        0 <= t <= EASE_SCALE,
    ensures
        r == interpolate_color_spec(start, end, t as int),
{
    match (start, end) {
        (Color::Rgb(r1, g1, b1), Color::Rgb(r2, g2, b2)) => Color::Rgb(
            lerp_channel_exec(r1, r2, t),
            lerp_channel_exec(g1, g2, t),
            lerp_channel_exec(b1, b2, t),
        ),
        _ => if t < EASE_SCALE / 2 {
            start
        } else {
            end
        },
    }
}

/// A smooth run of colors from `start` to `end` in a fixed number of
/// steps.
pub struct ColorGradient {
    pub start: Color,
    pub end: Color,
    pub steps: usize,
}

/// The color a gradient shows at a given step.
pub open spec fn gradient_color_spec(g: ColorGradient, step: int) -> Color {
    if step + 1 >= g.steps {
        g.end
    } else {
        interpolate_color_spec(g.start, g.end, step * (EASE_SCALE as int) / (g.steps - 1))
    }
}

impl ColorGradient {
    pub fn new(start: Color, end: Color, steps: usize) -> (r: ColorGradient)
        ensures
            r.start == start && r.end == end && r.steps == steps,
    {
        ColorGradient { start, end, steps }
    }

    pub fn color_at(&self, step: usize) -> (r: Color)
        requires
            self.steps <= 100000,
            step <= 100000,
        ensures
            r == gradient_color_spec(*self, step as int),
    {
        if step + 1 >= self.steps {
            return self.end;
        }
        let denom = (self.steps - 1) as i64;
        let t = (step as i64) * EASE_SCALE / denom;
        proof {
            let si = EASE_SCALE as int;
            let st = step as int;
            let de = denom as int;
            assert(0 <= st * si && st * si <= de * si && de * si == si * de) by (nonlinear_arith)
                requires 0 <= st < de, 0 < si;
            vstd::arithmetic::div_mod::lemma_div_is_ordered(st * si, de * si, de);
            vstd::arithmetic::div_mod::lemma_div_multiples_vanish(si, de);
            vstd::arithmetic::div_mod::lemma_div_pos_is_pos(st * si, de);
        }
        interpolate_color(self.start, self.end, t)
    }

    /// Every step of the gradient, first to last.
    pub fn colors(&self) -> (r: Vec<Color>)
        requires
            self.steps <= 100000,
        ensures
            r@.len() == self.steps,
            forall|i: int| 0 <= i < self.steps ==> r@[i] == gradient_color_spec(*self, i),
    {
        let mut out: Vec<Color> = Vec::new();
        let mut i: usize = 0;
        while i < self.steps
            invariant
                i <= self.steps,
                self.steps <= 100000,
                out@.len() == i,
                forall|j: int| 0 <= j < i ==> out@[j] == gradient_color_spec(*self, j),
            decreases self.steps - i,
        {
            let c = self.color_at(i);
            out.push(c);
            i = i + 1;
        }
        out
    }
}

} // verus!
