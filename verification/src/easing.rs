//! Easing curves for animations, in fixed-point arithmetic.
//!
//! Progress values live on the scale `0 ..= EASE_SCALE`, where `0` stands
//! for the start of an animation and `EASE_SCALE` for its end. The scale is
//! chosen so that every breakpoint and constant of the bounce curve is an
//! exact integer (it is divisible by 22 and by 64).

use vstd::prelude::*;

verus! {

/// One whole unit of eased progress.
pub const EASE_SCALE: i64 = 7040;

/// The easing curves on offer. All of them map `0` to `0` and
/// `EASE_SCALE` to `EASE_SCALE`; all but `Bounce` and `Elastic` are
/// monotone in between.
#[derive(Debug, Clone, Copy, PartialEq, Eq, Structural)]
pub enum EasingFunction {
    Linear,
    EaseIn,
    EaseOut,
    EaseInOut,
    Bounce,
    Elastic,
}

/// Clamp a progress value into `[0, EASE_SCALE]`.
pub open spec fn clamp_progress(t: int) -> int {
    if t < 0 {
        0
    } else if t > EASE_SCALE {
        EASE_SCALE as int
    } else {
        t
    }
}

pub open spec fn ease_linear(t: int) -> int {
    t
}

pub open spec fn ease_in(t: int) -> int {
    t * t / (EASE_SCALE as int)
}

pub open spec fn ease_out(t: int) -> int {
    EASE_SCALE - (EASE_SCALE - t) * (EASE_SCALE - t) / (EASE_SCALE as int)
}

pub open spec fn ease_in_out(t: int) -> int {
    if t < EASE_SCALE / 2 {
        2 * t * t / (EASE_SCALE as int)
    } else {
        EASE_SCALE - 2 * (EASE_SCALE - t) * (EASE_SCALE - t) / (EASE_SCALE as int)
    }
}

/// The classic four-segment bounce: quadratic arcs with the physical
/// 121/16 coefficient, segment boundaries at 4/11, 8/11 and 10/11 of the
/// way through.
pub open spec fn ease_bounce(t: int) -> int {
    if t < 4 * EASE_SCALE / 11 {
        121 * t * t / (16 * EASE_SCALE as int)
    } else if t < 8 * EASE_SCALE / 11 {
        let d = t - 6 * EASE_SCALE / 11;
        121 * d * d / (16 * EASE_SCALE as int) + 3 * EASE_SCALE / 4
    } else if t < 10 * EASE_SCALE / 11 {
        let d = t - 9 * EASE_SCALE / 11;
        121 * d * d / (16 * EASE_SCALE as int) + 15 * EASE_SCALE / 16
    } else {
        let d = t - 21 * EASE_SCALE / 22;
        121 * d * d / (16 * EASE_SCALE as int) + 63 * EASE_SCALE / 64
    }
}

/// The eased value for every curve except `Elastic`, whose interior shape
/// is an implementation detail (a damped sine approximation); its contract
/// pins only the endpoints and the range.
pub open spec fn ease_spec(e: EasingFunction, t: int) -> int {
    match e {
        EasingFunction::Linear => ease_linear(t),
        EasingFunction::EaseIn => ease_in(t),
        EasingFunction::EaseOut => ease_out(t),
        EasingFunction::EaseInOut => ease_in_out(t),
        EasingFunction::Bounce => ease_bounce(t),
        EasingFunction::Elastic => t,
    }
}

impl EasingFunction {
    /// Apply the curve to a progress value. The input is clamped into
    /// `[0, EASE_SCALE]` first, as the animation engine may hand in a
    /// progress slightly past the end of a tween.
    pub fn apply(&self, t: i64) -> (r: i64)
        ensures
            !(self is Elastic) ==> r == ease_spec(*self, clamp_progress(t as int)),
            t <= 0 ==> r == 0,
            t >= EASE_SCALE ==> r == EASE_SCALE,
            -EASE_SCALE <= r <= EASE_SCALE,
            !(self is Elastic) ==> 0 <= r,
    {
        let t = if t < 0 {
            0
        } else if t > EASE_SCALE {
            EASE_SCALE
        } else {
            t
        };
        match self {
            EasingFunction::Linear => t,
            EasingFunction::EaseIn => {
                proof {
                    lemma_square_div_bounds(t as int);
                }
                t * t / EASE_SCALE
            },
            EasingFunction::EaseOut => {
                proof {
                    lemma_square_div_bounds((EASE_SCALE - t) as int);
                }
                EASE_SCALE - (EASE_SCALE - t) * (EASE_SCALE - t) / EASE_SCALE
            },
            EasingFunction::EaseInOut => {
                if t < EASE_SCALE / 2 {
                    proof {
                        lemma_half_square_div_bounds(t as int);
                    }
                    2 * t * t / EASE_SCALE
                } else {
                    proof {
                        lemma_half_square_div_bounds((EASE_SCALE - t) as int);
                    }
                    EASE_SCALE - 2 * (EASE_SCALE - t) * (EASE_SCALE - t) / EASE_SCALE
                }
            },
            EasingFunction::Bounce => bounce_eased(t),
            EasingFunction::Elastic => elastic_eased(t),
        }
    }
}

/// `0 <= t*t/S <= t` for `t` in the unit range: the quadratic arcs stay
/// inside the band they ease across.
proof fn lemma_square_div_bounds(t: int)
    requires
        0 <= t <= EASE_SCALE,
    ensures
        0 <= t * t / (EASE_SCALE as int) <= t,
{
    assert(t * t <= t * EASE_SCALE) by (nonlinear_arith)
        requires 0 <= t <= EASE_SCALE;
    assert(0 <= t * t) by (nonlinear_arith);
    vstd::arithmetic::div_mod::lemma_div_is_ordered(t * t, t * EASE_SCALE, EASE_SCALE as int);
    vstd::arithmetic::div_mod::lemma_div_multiples_vanish(t, EASE_SCALE as int);
    vstd::arithmetic::div_mod::lemma_div_pos_is_pos(t * t, EASE_SCALE as int);
}

/// `0 <= 2*t*t/S <= S/2` for `t` up to half the scale.
proof fn lemma_half_square_div_bounds(t: int)
    requires
        0 <= t <= EASE_SCALE / 2,
    ensures
        0 <= 2 * t * t / (EASE_SCALE as int) <= EASE_SCALE / 2,
{
    let s = EASE_SCALE as int;
    assert(2 * t * t <= (s / 2) * s) by (nonlinear_arith)
        requires 0 <= t <= s / 2, s == 7040;
    assert(0 <= 2 * t * t) by (nonlinear_arith);
    vstd::arithmetic::div_mod::lemma_div_is_ordered(2 * t * t, (s / 2) * s, s);
    vstd::arithmetic::div_mod::lemma_div_multiples_vanish(s / 2, s);
    vstd::arithmetic::div_mod::lemma_div_pos_is_pos(2 * t * t, s);
}

/// One quadratic arc of the bounce curve: `121*d*d/(16*S)`, bounded by
/// `cap` whenever `|d| <= dmax` and `121*dmax*dmax <= 16*S*cap`.
proof fn lemma_bounce_arc_bounds(d: int, dmax: int, cap: int)
    requires
        -dmax <= d <= dmax,
        0 <= dmax,
        0 <= cap,
        121 * dmax * dmax <= 16 * (EASE_SCALE as int) * cap,
    ensures
        0 <= 121 * d * d / (16 * EASE_SCALE as int) <= cap,
{
    let s = EASE_SCALE as int;
    assert(121 * d * d <= 121 * dmax * dmax) by (nonlinear_arith)
        requires -dmax <= d <= dmax, 0 <= dmax;
    assert(0 <= 121 * d * d) by (nonlinear_arith);
    vstd::arithmetic::div_mod::lemma_div_is_ordered(121 * d * d, 16 * s * cap, 16 * s);
    assert(16 * s * cap == cap * (16 * s)) by (nonlinear_arith);
    vstd::arithmetic::div_mod::lemma_div_multiples_vanish(cap, 16 * s);
    vstd::arithmetic::div_mod::lemma_div_pos_is_pos(121 * d * d, 16 * s);
}

/// The bounce curve on clamped progress.
fn bounce_eased(t: i64) -> (r: i64)
    requires
        0 <= t <= EASE_SCALE,
    ensures
        r == ease_bounce(t as int),
        0 <= r <= EASE_SCALE,
        t == 0 ==> r == 0,
        t == EASE_SCALE ==> r == EASE_SCALE,
{
    if t < 4 * EASE_SCALE / 11 {
        proof {
            lemma_bounce_arc_bounds(t as int, 2559, 7035);
        }
        121 * t * t / (16 * EASE_SCALE)
    } else if t < 8 * EASE_SCALE / 11 {
        let d = t - 6 * EASE_SCALE / 11;
        proof {
            lemma_bounce_arc_bounds(d as int, 1280, 1760);
        }
        121 * d * d / (16 * EASE_SCALE) + 3 * EASE_SCALE / 4
    } else if t < 10 * EASE_SCALE / 11 {
        let d = t - 9 * EASE_SCALE / 11;
        proof {
            lemma_bounce_arc_bounds(d as int, 640, 440);
        }
        121 * d * d / (16 * EASE_SCALE) + 15 * EASE_SCALE / 16
    } else {
        let d = t - 21 * EASE_SCALE / 22;
        proof {
            lemma_bounce_arc_bounds(d as int, 320, 110);
        }
        121 * d * d / (16 * EASE_SCALE) + 63 * EASE_SCALE / 64
    }
}

/// Sine of `a` half-turns (fixed point, one half-turn = `EASE_SCALE`),
/// via the Bhaskara quadratic approximation. Only the range matters to
/// callers.
fn sin_half_turns(a: i64) -> (r: i64)
    requires
        -100 * EASE_SCALE <= a <= 100 * EASE_SCALE,
    ensures
        -EASE_SCALE <= r <= EASE_SCALE,
{
    let two_pi = 2 * EASE_SCALE;
    let mut m = a % two_pi;
    if m < 0 {
        m = m + two_pi;
    }
    if m < EASE_SCALE {
        bhaskara_sin(m)
    } else {
        -bhaskara_sin(m - EASE_SCALE)
    }
}

/// Bhaskara's approximation of `sin` on one half-turn, scaled by
/// `EASE_SCALE`: `S * 16y(S-y) / (5S^2 - 4y(S-y))`.
fn bhaskara_sin(y: i64) -> (r: i64)
    requires
        0 <= y < 2 * EASE_SCALE,
    ensures
        0 <= r <= EASE_SCALE,
{
    let s = EASE_SCALE;
    let y = if y > s {
        s
    } else {
        y
    };
    proof {
        let si = EASE_SCALE as int;
        assert(0 <= (y as int) * (si - y as int) && 4 * ((y as int) * (si - y as int)) <= si * si)
            by (nonlinear_arith)
            requires 0 <= y as int <= si;
    }
    let prod = y * (s - y);
    let num = s * (16 * prod);
    let den = 5 * (s * s) - 4 * prod;
    proof {
        let si = EASE_SCALE as int;
        let p = prod as int;
        assert(num as int <= (den as int) * si && 0 < den as int) by (nonlinear_arith)
            requires
                0 <= p,
                4 * p <= si * si,
                si == 7040,
                num as int == si * (16 * p),
                den as int == 5 * (si * si) - 4 * p;
        vstd::arithmetic::div_mod::lemma_div_is_ordered(num as int, (den as int) * si, den as int);
        assert((den as int) * si / (den as int) == si) by {
            vstd::arithmetic::div_mod::lemma_div_multiples_vanish(si, den as int);
            assert((den as int) * si == si * (den as int)) by (nonlinear_arith);
        }
        vstd::arithmetic::div_mod::lemma_div_pos_is_pos(num as int, den as int);
    }
    num / den
}

/// The elastic curve on clamped progress: a damped sine that decays as the
/// tween approaches its target, matching the usual `-2^(10(t-1)) *
/// sin((t-1-p/4) * 2*pi/p)` shape with period `p = 0.3`. The endpoints are
/// exact; in between the curve may overshoot in either direction, but
/// never past one whole unit.
fn elastic_eased(t: i64) -> (r: i64)
    requires
        0 <= t <= EASE_SCALE,
    ensures
        t == 0 ==> r == 0,
        t == EASE_SCALE ==> r == EASE_SCALE,
        -EASE_SCALE <= r <= EASE_SCALE,
{
    if t == 0 {
        return 0;
    }
    if t == EASE_SCALE {
        return EASE_SCALE;
    }
    let s = EASE_SCALE;
    // Amplitude 2^(10*(t - S)/S): split the exponent into its integer part
    // `k` and fractional part `frac`, and approximate 2^(-frac) linearly.
    let u = s - t;
    let x = 10 * u;
    let k = x / s;
    let frac = x % s;
    proof {
        let si = EASE_SCALE as int;
        assert(0 <= (x as int) / si <= 10) by {
            vstd::arithmetic::div_mod::lemma_div_is_ordered(0, x as int, si);
            vstd::arithmetic::div_mod::lemma_div_is_ordered(x as int, 10 * si, si);
            vstd::arithmetic::div_mod::lemma_div_multiples_vanish(10, si);
        }
        vstd::arithmetic::div_mod::lemma_mod_bound(x as int, si);
    }
    let mut halvings: i64 = 0;
    let mut amp = s - frac / 2;
    proof {
        vstd::arithmetic::div_mod::lemma_div_is_ordered(frac as int, EASE_SCALE as int, 2);
    }
    while halvings < k
        invariant
            0 <= halvings <= k <= 10,
            0 <= amp <= EASE_SCALE,
        decreases k - halvings,
    {
        amp = amp / 2;
        halvings = halvings + 1;
    }
    // Phase (t - S - S*3/40) * 2/(3S/10) half-turns, i.e. v * 20 / (3S).
    let v = t - s - 528;
    proof {
        let vi = v as int;
        assert(-24 * EASE_SCALE <= vi * 20 && vi * 20 <= 0) by (nonlinear_arith)
            requires -(EASE_SCALE as int) - 528 <= vi <= 0, EASE_SCALE == 7040;
        assert(-100 * EASE_SCALE <= vi * 20 / 3 <= 0) by {
            vstd::arithmetic::div_mod::lemma_div_is_ordered(-24 * EASE_SCALE, vi * 20, 3);
            vstd::arithmetic::div_mod::lemma_div_is_ordered(vi * 20, 0, 3);
            vstd::arithmetic::div_mod::lemma_div_multiples_vanish(-8 * EASE_SCALE, 3);
            assert(-24 * (EASE_SCALE as int) == (-8 * EASE_SCALE) * 3);
        }
    }
    let angle = v * 20 / 3;
    let sv = sin_half_turns(angle);
    proof {
        let si = EASE_SCALE as int;
        assert(-(si * si) <= (amp as int) * (sv as int) <= si * si) by (nonlinear_arith)
            requires 0 <= amp as int <= si, -si <= sv as int <= si;
    }
    let scaled = amp * sv;
    let r = -scaled / s;
    proof {
        let si = EASE_SCALE as int;
        assert(-si <= -(scaled as int) / si <= si) by {
            vstd::arithmetic::div_mod::lemma_div_is_ordered(-(si * si), -(scaled as int), si);
            vstd::arithmetic::div_mod::lemma_div_is_ordered(-(scaled as int), si * si, si);
            vstd::arithmetic::div_mod::lemma_div_multiples_vanish(-si, si);
            vstd::arithmetic::div_mod::lemma_div_multiples_vanish(si, si);
            assert(-(si * si) == (-si) * si && si * si == si * si) by (nonlinear_arith);
        }
    }
    r
}

/// Every easing curve starts at zero and ends at one whole unit.
pub proof fn lemma_easing_endpoints(e: EasingFunction)
    ensures
        ease_spec(e, 0) == 0,
        ease_spec(e, EASE_SCALE as int) == EASE_SCALE,
{
    let s = EASE_SCALE as int;
    match e {
        EasingFunction::Linear => {},
        EasingFunction::EaseIn => {
            assert(s * s == 49561600) by (nonlinear_arith)
                requires s == 7040;
            assert(49561600 as int / s == s);
        },
        EasingFunction::EaseOut => {
            assert(s * s == 49561600) by (nonlinear_arith)
                requires s == 7040;
            assert(s - 49561600 as int / s == 0);
        },
        EasingFunction::EaseInOut => {
            assert(ease_in_out(0) == 0);
            assert(s - 2 * (s - s) * (s - s) / s == s);
        },
        EasingFunction::Bounce => {
            assert(ease_bounce(0) == 0);
            let d = s - 21 * s / 22;
            assert(d == 320);
            assert(121 * d * d == 12390400) by (nonlinear_arith)
                requires d == 320;
            assert(12390400 as int / (16 * s) == 110);
            assert(ease_bounce(s) == s);
        },
        EasingFunction::Elastic => {},
    }
}

/// Every curve except `Bounce` and `Elastic` is monotone on the unit
/// interval: more progress never eases to a smaller value.
pub proof fn lemma_easing_monotone(e: EasingFunction, t1: int, t2: int)
    requires
        !(e is Bounce),
        !(e is Elastic),
        0 <= t1 <= t2 <= EASE_SCALE,
    ensures
        ease_spec(e, t1) <= ease_spec(e, t2),
{
    let s = EASE_SCALE as int;
    match e {
        EasingFunction::Linear => {},
        EasingFunction::EaseIn => {
            lemma_square_div_monotone(t1, t2);
        },
        EasingFunction::EaseOut => {
            lemma_square_div_monotone(s - t2, s - t1);
        },
        EasingFunction::EaseInOut => {
            if t2 < s / 2 {
                lemma_double_square_div_monotone(t1, t2);
            } else if t1 >= s / 2 {
                lemma_double_square_div_monotone(s - t2, s - t1);
            } else {
                // Across the midpoint: the left half tops out at s/2 and
                // the right half starts there.
                lemma_half_square_div_bounds(t1);
                lemma_half_square_div_bounds(s - t2);
            }
        },
        EasingFunction::Bounce => {},
        EasingFunction::Elastic => {},
    }
}

/// `a <= b` implies `a*a/S <= b*b/S` for values in the unit range.
proof fn lemma_square_div_monotone(a: int, b: int)
    requires
        0 <= a <= b <= EASE_SCALE,
    ensures
        a * a / (EASE_SCALE as int) <= b * b / (EASE_SCALE as int),
{
    assert(a * a <= b * b) by (nonlinear_arith)
        requires 0 <= a <= b;
    vstd::arithmetic::div_mod::lemma_div_is_ordered(a * a, b * b, EASE_SCALE as int);
}

/// `a <= b` implies `2*a*a/S <= 2*b*b/S` for values in the unit range.
proof fn lemma_double_square_div_monotone(a: int, b: int)
    requires
        0 <= a <= b <= EASE_SCALE,
    ensures
        2 * a * a / (EASE_SCALE as int) <= 2 * b * b / (EASE_SCALE as int),
{
    assert(2 * a * a <= 2 * b * b) by (nonlinear_arith)
        requires 0 <= a <= b;
    vstd::arithmetic::div_mod::lemma_div_is_ordered(2 * a * a, 2 * b * b, EASE_SCALE as int);
}

} // verus!
