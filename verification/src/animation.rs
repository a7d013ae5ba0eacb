//! Time-driven interpolation: eased tweens, the per-frame animation
//! clock, particle effects and spinners.
//!
//! Values are plain integers (a fixed-point convention is up to the
//! caller); durations and deltas are milliseconds. A tween's current value
//! always stays inside the closed interval spanned by its start and its
//! target, and once its elapsed time reaches its duration it sits exactly
//! on the target and reports itself settled.

use vstd::prelude::*;
use crate::color::Color;
use crate::easing::{ease_spec, EasingFunction, EASE_SCALE};

verus! {

/// Largest magnitude a tweened value may take.
pub const VALUE_LIMIT: i64 = 1000000000000;

/// Largest duration of a single tween, and largest frame delta, in
/// milliseconds.
pub const TIME_LIMIT: u64 = 1000000000;

/// A value that glides from a start towards a target over a duration,
/// shaped by an easing curve.
#[derive(Debug, Clone, Copy, PartialEq, Eq, Structural)]
pub struct AnimatedValue {
    pub start_value: i64,
    pub end_value: i64,
    pub current_value: i64,
    pub duration_ms: u64,
    pub elapsed_ms: u64,
    pub easing: EasingFunction,
    pub animating: bool,
}

pub open spec fn min_i(a: int, b: int) -> int {
    if a <= b {
        a
    } else {
        b
    }
}

pub open spec fn max_i(a: int, b: int) -> int {
    if a >= b {
        a
    } else {
        b
    }
}

impl AnimatedValue {
    /// The tween's internal invariant: bounded endpoints, a current value
    /// inside the interval they span, a settled value that sits on the
    /// target, and a bounded clock.
    pub open spec fn wf(self) -> bool {
        &&& -VALUE_LIMIT <= self.start_value <= VALUE_LIMIT
        &&& -VALUE_LIMIT <= self.end_value <= VALUE_LIMIT
        &&& min_i(self.start_value as int, self.end_value as int) <= self.current_value
            <= max_i(self.start_value as int, self.end_value as int)
        &&& !self.animating ==> self.current_value == self.end_value
        &&& self.duration_ms <= TIME_LIMIT
        &&& self.animating ==> self.elapsed_ms <= self.duration_ms
    }

    /// The state after retargeting: the current value becomes the new
    /// start (so a retarget mid-flight causes no visual jump), the clock
    /// restarts, and the tween is live.
    pub open spec fn animate_to_spec(
        self,
        target: i64,
        duration_ms: u64,
        easing: EasingFunction,
    ) -> AnimatedValue {
        AnimatedValue {
            start_value: self.current_value,
            end_value: target,
            current_value: self.current_value,
            duration_ms,
            elapsed_ms: 0,
            easing,
            animating: true,
        }
    }

    /// Whether advancing by `delta_ms` carries the tween to (or past) its
    /// duration.
    pub open spec fn settles(self, delta_ms: u64) -> bool {
        self.animating && self.elapsed_ms + delta_ms >= self.duration_ms
    }

    /// The state after an advance that settles: exactly on the target,
    /// no longer animating.
    pub open spec fn settle_spec(self, delta_ms: u64) -> AnimatedValue {
        AnimatedValue {
            current_value: self.end_value,
            elapsed_ms: (self.elapsed_ms + delta_ms) as u64,
            animating: false,
            ..self
        }
    }

    /// A fresh, settled tween sitting on one value.
    pub open spec fn new_spec(initial_value: i64) -> AnimatedValue {
        AnimatedValue {
            start_value: initial_value,
            end_value: initial_value,
            current_value: initial_value,
            duration_ms: 300,
            elapsed_ms: 0,
            easing: EasingFunction::EaseInOut,
            animating: false,
        }
    }

    pub fn new(initial_value: i64) -> (r: AnimatedValue)
        requires
            -VALUE_LIMIT <= initial_value <= VALUE_LIMIT,
        ensures
            r == AnimatedValue::new_spec(initial_value),
            r.wf(),
            r.start_value == initial_value,
            r.end_value == initial_value,
            r.current_value == initial_value,
            r.duration_ms == 300,
            r.elapsed_ms == 0,
            r.easing is EaseInOut,
            !r.animating,
    {
        AnimatedValue {
            start_value: initial_value,
            end_value: initial_value,
            current_value: initial_value,
            duration_ms: 300,
            elapsed_ms: 0,
            easing: EasingFunction::EaseInOut,
            animating: false,
        }
    }

    /// Begin gliding from the current value towards `target`.
    pub fn animate_to(&mut self, target: i64, duration_ms: u64, easing: EasingFunction)
        requires
            old(self).wf(),
            -VALUE_LIMIT <= target <= VALUE_LIMIT,
            duration_ms <= TIME_LIMIT,
        ensures
            *final(self) == old(self).animate_to_spec(target, duration_ms, easing),
            final(self).wf(),
    {
        self.start_value = self.current_value;
        self.end_value = target;
        self.duration_ms = duration_ms;
        self.easing = easing;
        self.elapsed_ms = 0;
        self.animating = true;
    }

    /// How a tween relates to its state one advance of `delta_ms` later:
    /// untouched if it was idle, exactly settled if the clock ran out,
    /// otherwise advanced with the current value at the eased position
    /// (pinned exactly for every curve whose shape is specified).
    pub open spec fn updated(self, post: AnimatedValue, delta_ms: u64) -> bool {
        &&& (!self.animating ==> post == self)
        &&& (self.settles(delta_ms) ==> post == self.settle_spec(delta_ms))
        &&& (self.animating && !self.settles(delta_ms) ==> {
            &&& post.elapsed_ms == self.elapsed_ms + delta_ms
            &&& post.start_value == self.start_value
            &&& post.end_value == self.end_value
            &&& post.duration_ms == self.duration_ms
            &&& post.easing == self.easing
            &&& post.animating
            &&& !(self.easing is Elastic) ==> post.current_value == interp_spec(
                self.start_value as int,
                self.end_value as int,
                ease_spec(
                    self.easing,
                    (self.elapsed_ms + delta_ms) * (EASE_SCALE as int) / (self.duration_ms as int),
                ),
            )
        })
    }

    /// Advance the tween by a frame delta. A live tween whose clock
    /// reaches its duration lands exactly on the target and stops; one
    /// still in flight keeps its current value inside the interval
    /// spanned by start and target.
    pub fn update(&mut self, delta_ms: u64)
        requires
            old(self).wf(),
            delta_ms <= TIME_LIMIT,
        ensures
            final(self).wf(),
            old(self).updated(*final(self), delta_ms),
    {
        if !self.animating {
            return;
        }
        let new_elapsed = self.elapsed_ms + delta_ms;
        self.elapsed_ms = new_elapsed;
        if new_elapsed >= self.duration_ms {
            self.current_value = self.end_value;
            self.animating = false;
        } else {
            assert(new_elapsed < self.duration_ms && self.duration_ms <= TIME_LIMIT);
            proof {
                assert(new_elapsed * (EASE_SCALE as u64) <= TIME_LIMIT * 7040) by (nonlinear_arith)
                    requires new_elapsed <= TIME_LIMIT, EASE_SCALE == 7040;
            }
            let scaled = new_elapsed * (EASE_SCALE as u64);
            let progress_u = scaled / self.duration_ms;
            proof {
                let si = EASE_SCALE as int;
                let e = new_elapsed as int;
                let d = self.duration_ms as int;
                assert(0 <= e * si && e * si <= d * si && d * si == si * d) by (nonlinear_arith)
                    requires 0 <= e <= d, 0 < si;
                vstd::arithmetic::div_mod::lemma_div_is_ordered(e * si, d * si, d);
                vstd::arithmetic::div_mod::lemma_div_multiples_vanish(si, d);
                vstd::arithmetic::div_mod::lemma_div_pos_is_pos(e * si, d);
            }
            let progress = progress_u as i64;
            let eased = self.easing.apply(progress);
            self.current_value = interp(self.start_value, self.end_value, eased);
        }
    }

    /// The interpolated value right now.
    pub fn value(&self) -> (r: i64)
        ensures
            r == self.current_value,
    {
        self.current_value
    }

    pub fn is_animating(&self) -> (r: bool)
        ensures
            r == self.animating,
    {
        self.animating
    }

    /// Jump to a value at once, with no animation.
    pub fn set_immediate(&mut self, value: i64)
        requires
            old(self).wf(),
            -VALUE_LIMIT <= value <= VALUE_LIMIT,
        ensures
            final(self).wf(),
            final(self).start_value == value,
            final(self).end_value == value,
            final(self).current_value == value,
            !final(self).animating,
            final(self).duration_ms == old(self).duration_ms,
            final(self).elapsed_ms == old(self).elapsed_ms,
            final(self).easing == old(self).easing,
    {
        self.start_value = value;
        self.end_value = value;
        self.current_value = value;
        self.animating = false;
    }
}

/// The point eased `eased / EASE_SCALE` of the way from `start` to `end`,
/// clamped into the closed interval the two span.
pub open spec fn interp_spec(start: int, end: int, eased: int) -> int {
    let lo = min_i(start, end);
    let hi = max_i(start, end);
    let raw = if end >= start {
        start + (end - start) * eased / (EASE_SCALE as int)
    } else {
        start - (start - end) * eased / (EASE_SCALE as int)
    };
    if raw < lo {
        lo
    } else if raw > hi {
        hi
    } else {
        raw
    }
}

fn interp(start: i64, end: i64, eased: i64) -> (r: i64)
    requires
        -VALUE_LIMIT <= start <= VALUE_LIMIT,
        -VALUE_LIMIT <= end <= VALUE_LIMIT,
        -EASE_SCALE <= eased <= EASE_SCALE,
    ensures
        r == interp_spec(start as int, end as int, eased as int),
        min_i(start as int, end as int) <= r <= max_i(start as int, end as int),
{
    proof {
        let si = EASE_SCALE as int;
        let d = if end >= start {
            end as int - start as int
        } else {
            start as int - end as int
        };
        assert(-(d * si) <= d * (eased as int) && d * (eased as int) <= d * si) by (nonlinear_arith)
            requires 0 <= d, -si <= eased as int <= si;
        assert(d * si <= 2 * (VALUE_LIMIT as int) * si) by (nonlinear_arith)
            requires 0 <= d <= 2 * (VALUE_LIMIT as int), 0 < si;
    }
    let raw = if end >= start {
        let step = (end - start) * eased / EASE_SCALE;
        start + step
    } else {
        let step = (start - end) * eased / EASE_SCALE;
        start - step
    };
    let lo = if start <= end {
        start
    } else {
        end
    };
    let hi = if start >= end {
        start
    } else {
        end
    };
    if raw < lo {
        lo
    } else if raw > hi {
        hi
    } else {
        raw
    }
}

/// Relies on rand::random_range over a half-open integer range: the draw
/// lands inside the range; it panics only when the range is empty, which
/// the precondition rules out.
#[verifier::external_body]
fn random_in_range(lo: i64, hi: i64) -> (r: i64)
    requires
        lo < hi,
    ensures
        lo <= r < hi,
{
    rand::random_range(lo..hi)
}

/// Position and speed bounds for particles, in milli-cells.
pub const PARTICLE_POS_LIMIT: i64 = 1000000000;

pub const PARTICLE_VEL_LIMIT: i64 = 1000000;

/// How long a confetti particle lives, in milliseconds.
pub const PARTICLE_LIFE_MS: i64 = 3000;

/// One confetti particle: a position and velocity in milli-cells, a color
/// and glyph, and a remaining lifetime.
#[derive(Debug, Clone, Copy, PartialEq, Eq, Structural)]
pub struct Particle {
    pub x: i64,
    pub y: i64,
    pub velocity_x: i64,
    pub velocity_y: i64,
    pub color: Color,
    pub character: char,
    pub life: i64,
    pub max_life: i64,
}

pub open spec fn clamp_i(v: int, lo: int, hi: int) -> int {
    if v < lo {
        lo
    } else if v > hi {
        hi
    } else {
        v
    }
}

/// One particle's state after a frame: drift by velocity, gravity pulls
/// the vertical speed down, the lifetime burns off. Everything is clamped
/// into its bound so the state stays well formed however long the effect
/// is driven.
pub open spec fn particle_update_spec(p: Particle, delta_ms: u64) -> Particle {
    let d = delta_ms as int;
    Particle {
        x: clamp_i(p.x + signed_scale(p.velocity_x as int, d), -PARTICLE_POS_LIMIT as int, PARTICLE_POS_LIMIT as int) as i64,
        y: clamp_i(p.y + signed_scale(p.velocity_y as int, d), -PARTICLE_POS_LIMIT as int, PARTICLE_POS_LIMIT as int) as i64,
        velocity_y: clamp_i(p.velocity_y + 9800 * d / 1000, -PARTICLE_VEL_LIMIT as int, PARTICLE_VEL_LIMIT as int) as i64,
        life: max_i(p.life - d, 0) as i64,
        ..p
    }
}

/// `v * d / 1000` with the rounding of the magnitude, whatever the sign of
/// `v` (so the executable and the specification agree on negatives).
pub open spec fn signed_scale(v: int, d: int) -> int {
    if v >= 0 {
        v * d / 1000
    } else {
        -((-v) * d / 1000)
    }
}

impl Particle {
    pub open spec fn wf(self) -> bool {
        &&& -PARTICLE_POS_LIMIT <= self.x <= PARTICLE_POS_LIMIT
        &&& -PARTICLE_POS_LIMIT <= self.y <= PARTICLE_POS_LIMIT
        &&& -PARTICLE_VEL_LIMIT <= self.velocity_x <= PARTICLE_VEL_LIMIT
        &&& -PARTICLE_VEL_LIMIT <= self.velocity_y <= PARTICLE_VEL_LIMIT
        &&& 0 <= self.life <= PARTICLE_LIFE_MS
        &&& self.max_life == PARTICLE_LIFE_MS
    }

    /// A fresh confetti particle: somewhere along the top of an
    /// 80-column band, drifting sideways, falling, in one of five colors.
    pub fn new_confetti() -> (r: Particle)
        ensures
            r.wf(),
            0 <= r.x < 80000,
            -10000 <= r.y < 0,
            -2000 <= r.velocity_x < 2000,
            1000 <= r.velocity_y < 3000,
            r.life == PARTICLE_LIFE_MS,
            r.max_life == PARTICLE_LIFE_MS,
    {
        let x = random_in_range(0, 80000);
        let y = random_in_range(-10000, 0);
        let velocity_x = random_in_range(-2000, 2000);
        let velocity_y = random_in_range(1000, 3000);
        let color = match random_in_range(0, 5) {
            0 => Color::Red,
            1 => Color::Green,
            2 => Color::Blue,
            3 => Color::Yellow,
            _ => Color::Magenta,
        };
        let character = match random_in_range(0, 4) {
            0 => '*',
            1 => '+',
            2 => 'o',
            _ => '.',
        };
        Particle {
            x,
            y,
            velocity_x,
            velocity_y,
            color,
            character,
            life: PARTICLE_LIFE_MS,
            max_life: PARTICLE_LIFE_MS,
        }
    }

    pub fn update(&mut self, delta_ms: u64)
        requires
            old(self).wf(),
            delta_ms <= TIME_LIMIT,
        ensures
            final(self).wf(),
            *final(self) == particle_update_spec(*old(self), delta_ms),
    {
        let d = delta_ms as i64;
        let dx = scale_velocity(self.velocity_x, d);
        let dy = scale_velocity(self.velocity_y, d);
        self.x = clamp_exec(self.x + dx, -PARTICLE_POS_LIMIT, PARTICLE_POS_LIMIT);
        self.y = clamp_exec(self.y + dy, -PARTICLE_POS_LIMIT, PARTICLE_POS_LIMIT);
        proof {
            let di = d as int;
            assert(0 <= 9800 * di && 9800 * di <= 9800 * (TIME_LIMIT as int)) by (nonlinear_arith)
                requires 0 <= di <= TIME_LIMIT as int;
            vstd::arithmetic::div_mod::lemma_div_is_ordered(0, 9800 * di, 1000);
            vstd::arithmetic::div_mod::lemma_div_is_ordered(
                9800 * di,
                9800 * (TIME_LIMIT as int),
                1000,
            );
        }
        self.velocity_y = clamp_exec(
            self.velocity_y + 9800 * d / 1000,
            -PARTICLE_VEL_LIMIT,
            PARTICLE_VEL_LIMIT,
        );
        self.life = if self.life >= d {
            self.life - d
        } else {
            0
        };
    }

    pub fn is_alive(&self) -> (r: bool)
        ensures
            r == (self.life > 0),
    {
        self.life > 0
    }

    /// Remaining lifetime as eased-progress units of `EASE_SCALE`.
    pub fn alpha(&self) -> (r: i64)
        requires
            self.wf(),
        ensures
            0 <= r <= EASE_SCALE,
            r == self.life * (EASE_SCALE as int) / (PARTICLE_LIFE_MS as int),
    {
        proof {
            let li = self.life as int;
            let si = EASE_SCALE as int;
            assert(0 <= li * si && li * si <= (PARTICLE_LIFE_MS as int) * si && (
            PARTICLE_LIFE_MS as int) * si == si * (PARTICLE_LIFE_MS as int)) by (nonlinear_arith)
                requires 0 <= li <= PARTICLE_LIFE_MS as int, 0 < si;
            vstd::arithmetic::div_mod::lemma_div_is_ordered(
                li * si,
                (PARTICLE_LIFE_MS as int) * si,
                PARTICLE_LIFE_MS as int,
            );
            vstd::arithmetic::div_mod::lemma_div_multiples_vanish(si, PARTICLE_LIFE_MS as int);
            vstd::arithmetic::div_mod::lemma_div_pos_is_pos(li * si, PARTICLE_LIFE_MS as int);
        }
        self.life * EASE_SCALE / PARTICLE_LIFE_MS
    }
}

fn clamp_exec(v: i64, lo: i64, hi: i64) -> (r: i64)
    requires
        lo <= hi,
    ensures
        r == clamp_i(v as int, lo as int, hi as int),
{
    if v < lo {
        lo
    } else if v > hi {
        hi
    } else {
        v
    }
}

fn scale_velocity(v: i64, d: i64) -> (r: i64)
    requires
        -PARTICLE_VEL_LIMIT <= v <= PARTICLE_VEL_LIMIT,
        0 <= d <= TIME_LIMIT,
    ensures
        r == signed_scale(v as int, d as int),
        -PARTICLE_VEL_LIMIT * (TIME_LIMIT as int) <= r <= PARTICLE_VEL_LIMIT * (TIME_LIMIT as int),
{
    proof {
        let vi = if v >= 0 {
            v as int
        } else {
            -(v as int)
        };
        let di = d as int;
        assert(0 <= vi * di && vi * di <= (PARTICLE_VEL_LIMIT as int) * (TIME_LIMIT as int))
            by (nonlinear_arith)
            requires
                0 <= vi <= PARTICLE_VEL_LIMIT as int,
                0 <= di <= TIME_LIMIT as int;
        vstd::arithmetic::div_mod::lemma_div_is_ordered(
            0,
            vi * di,
            1000,
        );
        vstd::arithmetic::div_mod::lemma_div_is_ordered(
            vi * di,
            (PARTICLE_VEL_LIMIT as int) * (TIME_LIMIT as int),
            1000,
        );
    }
    if v >= 0 {
        v * d / 1000
    } else {
        -((-v) * d / 1000)
    }
}

/// How long a celebration effect runs, in milliseconds.
pub const CELEBRATION_MS: u64 = 3000;

/// How many confetti particles a celebration owns.
pub const CELEBRATION_PARTICLES: usize = 50;

/// A one-shot confetti burst. It reports itself finished once its own
/// elapsed time passes its duration, regardless of individual particle
/// lifetimes; its owner removes it at that point.
#[derive(Debug)]
pub struct CelebrationAnimation {
    pub particles: Vec<Particle>,
    pub duration_ms: u64,
    pub elapsed_ms: u64,
}

impl CelebrationAnimation {
    pub open spec fn wf(self) -> bool {
        &&& self.particles@.len() == CELEBRATION_PARTICLES
        &&& forall|i: int| 0 <= i < self.particles@.len() ==> (#[trigger] self.particles@[i]).wf()
        &&& self.duration_ms == CELEBRATION_MS
        &&& self.elapsed_ms <= CELEBRATION_MS + TIME_LIMIT
    }

    pub fn new() -> (r: CelebrationAnimation)
        ensures
            r.wf(),
            r.elapsed_ms == 0,
            !r.is_finished_spec(),
    {
        let mut particles: Vec<Particle> = Vec::new();
        let mut i: usize = 0;
        while i < CELEBRATION_PARTICLES
            invariant
                i <= CELEBRATION_PARTICLES,
                particles@.len() == i,
                forall|j: int| 0 <= j < i ==> (#[trigger] particles@[j]).wf(),
            decreases CELEBRATION_PARTICLES - i,
        {
            let p = Particle::new_confetti();
            particles.push(p);
            i = i + 1;
        }
        CelebrationAnimation { particles, duration_ms: CELEBRATION_MS, elapsed_ms: 0 }
    }

    pub open spec fn is_finished_spec(self) -> bool {
        self.elapsed_ms >= self.duration_ms
    }

    /// Advance the effect. Once finished it stays finished; particles keep
    /// drifting until the owner removes the effect.
    pub fn update(&mut self, delta_ms: u64)
        requires
            old(self).wf(),
            delta_ms <= TIME_LIMIT,
        ensures
            final(self).wf(),
            final(self).duration_ms == old(self).duration_ms,
            old(self).is_finished_spec() ==> final(self).elapsed_ms == old(self).elapsed_ms,
            !old(self).is_finished_spec() ==> final(self).elapsed_ms == old(self).elapsed_ms
                + delta_ms,
            final(self).particles@.len() == old(self).particles@.len(),
            forall|i: int| 0 <= i < old(self).particles@.len() ==> final(self).particles@[i]
                == particle_update_spec(#[trigger] old(self).particles@[i], delta_ms),
    {
        if self.elapsed_ms < self.duration_ms {
            self.elapsed_ms = self.elapsed_ms + delta_ms;
        }
        let ghost elapsed_now = self.elapsed_ms;
        let n = self.particles.len();
        let mut i: usize = 0;
        while i < n
            invariant
                i <= n,
                n == self.particles@.len(),
                n == old(self).particles@.len(),
                delta_ms <= TIME_LIMIT,
                self.duration_ms == old(self).duration_ms,
                self.elapsed_ms == elapsed_now,
                forall|j: int| i <= j < n ==> self.particles@[j] == old(self).particles@[j],
                forall|j: int| 0 <= j < i ==> self.particles@[j] == particle_update_spec(
                    #[trigger] old(self).particles@[j],
                    delta_ms,
                ),
                forall|j: int| 0 <= j < n ==> (#[trigger] self.particles@[j]).wf(),
            decreases n - i,
        {
            let mut q = self.particles[i];
            q.update(delta_ms);
            self.particles.set(i, q);
            i = i + 1;
        }
    }

    pub fn is_finished(&self) -> (r: bool)
        ensures
            r == self.is_finished_spec(),
    {
        self.elapsed_ms >= self.duration_ms
    }

    pub fn particles(&self) -> (r: &Vec<Particle>)
        ensures
            r == &self.particles,
    {
        &self.particles
    }
}

/// How a celebration relates to its state one advance later: the clock
/// runs until it passes the duration and then freezes, and every particle
/// takes exactly one step.
pub open spec fn celebration_updated(
    pre: CelebrationAnimation,
    post: CelebrationAnimation,
    delta_ms: u64,
) -> bool {
    &&& post.duration_ms == pre.duration_ms
    &&& (pre.is_finished_spec() ==> post.elapsed_ms == pre.elapsed_ms)
    &&& (!pre.is_finished_spec() ==> post.elapsed_ms == pre.elapsed_ms + delta_ms)
    &&& post.particles@.len() == pre.particles@.len()
    &&& forall|i: int| 0 <= i < pre.particles@.len() ==> post.particles@[i]
        == particle_update_spec(#[trigger] pre.particles@[i], delta_ms)
}

/// Once a tween is retargeted, any advance that covers the whole duration
/// lands the value exactly on the target and stops the animation.
pub proof fn lemma_retarget_then_settle(
    v: AnimatedValue,
    target: i64,
    duration_ms: u64,
    easing: EasingFunction,
    delta_ms: u64,
)
    requires
        delta_ms >= duration_ms,
    ensures
        v.animate_to_spec(target, duration_ms, easing).settles(delta_ms),
        v.animate_to_spec(target, duration_ms, easing).settle_spec(delta_ms).current_value
            == target,
        !v.animate_to_spec(target, duration_ms, easing).settle_spec(delta_ms).animating,
{
}

/// Rotation wraps after a full turn, in millidegrees.
pub const ROTATION_WRAP: u64 = 360000;

/// The particle clock wraps after about thirty-one years, in
/// milliseconds.
pub const PARTICLE_TIME_WRAP: u64 = 1000000000000;

/// The process-wide animation clock: the screen-transition and
/// menu-highlight tweens, two continuous accumulators advanced every
/// frame, the background pulse, and the one-shot celebration effect, if
/// one is running.
#[derive(Debug)]
pub struct AnimationState {
    pub transition_progress: AnimatedValue,
    pub menu_highlight: AnimatedValue,
    pub loading_rotation: u64,
    pub particle_time: u64,
    pub background_pulse: AnimatedValue,
    pub success_celebration: Option<CelebrationAnimation>,
}

impl AnimationState {
    pub open spec fn wf(self) -> bool {
        &&& self.transition_progress.wf()
        &&& self.menu_highlight.wf()
        &&& self.background_pulse.wf()
        &&& self.loading_rotation < ROTATION_WRAP
        &&& self.particle_time < PARTICLE_TIME_WRAP
        &&& match self.success_celebration {
            Some(c) => c.wf(),
            None => true,
        }
    }

    pub fn new() -> (r: AnimationState)
        ensures
            r.wf(),
            r.transition_progress == AnimatedValue::new_spec(0),
            r.menu_highlight == AnimatedValue::new_spec(0),
            r.background_pulse == AnimatedValue::new_spec(0),
            r.loading_rotation == 0,
            r.particle_time == 0,
            r.success_celebration is None,
    {
        AnimationState {
            transition_progress: AnimatedValue::new(0),
            menu_highlight: AnimatedValue::new(0),
            loading_rotation: 0,
            particle_time: 0,
            background_pulse: AnimatedValue::new(0),
            success_celebration: None,
        }
    }

    /// Advance the whole clock by a frame delta: step each tween, spin
    /// the loading rotation at one turn per second, accumulate particle
    /// time, and drop the celebration once it reports itself finished.
    pub fn update(&mut self, delta_ms: u64)
        requires
            old(self).wf(),
            delta_ms <= TIME_LIMIT,
        ensures
            final(self).wf(),
            old(self).transition_progress.updated(final(self).transition_progress, delta_ms),
            old(self).menu_highlight.updated(final(self).menu_highlight, delta_ms),
            old(self).background_pulse.updated(final(self).background_pulse, delta_ms),
            final(self).loading_rotation == (old(self).loading_rotation + delta_ms * 360)
                % (ROTATION_WRAP as int),
            final(self).particle_time == (old(self).particle_time + delta_ms)
                % (PARTICLE_TIME_WRAP as int),
            old(self).success_celebration is None ==> final(self).success_celebration is None,
            old(self).success_celebration matches Some(c) ==> {
                if c.is_finished_spec() || c.elapsed_ms + delta_ms >= c.duration_ms {
                    final(self).success_celebration is None
                } else {
                    final(self).success_celebration matches Some(d) && celebration_updated(
                        c,
                        d,
                        delta_ms,
                    )
                }
            },
    {
        self.transition_progress.update(delta_ms);
        self.menu_highlight.update(delta_ms);
        self.background_pulse.update(delta_ms);
        self.loading_rotation = (self.loading_rotation + delta_ms * 360) % ROTATION_WRAP;
        self.particle_time = (self.particle_time + delta_ms) % PARTICLE_TIME_WRAP;
        let mut finished = false;
        match &mut self.success_celebration {
            Some(celebration) => {
                celebration.update(delta_ms);
                if celebration.is_finished() {
                    finished = true;
                }
            },
            None => {},
        }
        if finished {
            self.success_celebration = None;
        }
    }

    /// Restart the screen-transition tween towards completion.
    pub fn trigger_transition(&mut self)
        requires
            old(self).wf(),
        ensures
            final(self).wf(),
            final(self).transition_progress == old(self).transition_progress.animate_to_spec(
                EASE_SCALE,
                300,
                EasingFunction::EaseInOut,
            ),
            final(self).menu_highlight == old(self).menu_highlight,
            final(self).background_pulse == old(self).background_pulse,
            final(self).loading_rotation == old(self).loading_rotation,
            final(self).particle_time == old(self).particle_time,
            final(self).success_celebration == old(self).success_celebration,
    {
        self.transition_progress.animate_to(EASE_SCALE, 300, EasingFunction::EaseInOut);
    }

    /// Glide the menu highlight towards an item index (stored scaled by
    /// `EASE_SCALE`).
    pub fn animate_menu_highlight(&mut self, target_index: u16)
        requires
            old(self).wf(),
        ensures
            final(self).wf(),
            final(self).menu_highlight == old(self).menu_highlight.animate_to_spec(
                ((target_index as i64) * EASE_SCALE) as i64,
                150,
                EasingFunction::EaseOut,
            ),
            final(self).transition_progress == old(self).transition_progress,
            final(self).background_pulse == old(self).background_pulse,
            final(self).success_celebration == old(self).success_celebration,
    {
        proof {
            assert((target_index as i64) * (EASE_SCALE as int) <= 65535 * 7040) by (nonlinear_arith)
                requires 0 <= target_index <= 65535, EASE_SCALE == 7040;
            assert(0 <= (target_index as i64) * (EASE_SCALE as int)) by (nonlinear_arith)
                requires 0 <= target_index, 0 < EASE_SCALE;
        }
        self.menu_highlight.animate_to(
            (target_index as i64) * EASE_SCALE,
            150,
            EasingFunction::EaseOut,
        );
    }

    /// Start a fresh confetti celebration.
    pub fn trigger_success_celebration(&mut self)
        requires
            old(self).wf(),
        ensures
            final(self).wf(),
            final(self).success_celebration matches Some(c) && c.elapsed_ms == 0 && c.wf(),
            final(self).transition_progress == old(self).transition_progress,
            final(self).menu_highlight == old(self).menu_highlight,
            final(self).background_pulse == old(self).background_pulse,
            final(self).loading_rotation == old(self).loading_rotation,
            final(self).particle_time == old(self).particle_time,
    {
        self.success_celebration = Some(CelebrationAnimation::new());
    }

    /// Swell the background pulse towards full brightness.
    pub fn pulse_background(&mut self)
        requires
            old(self).wf(),
        ensures
            final(self).wf(),
            final(self).background_pulse == old(self).background_pulse.animate_to_spec(
                EASE_SCALE,
                200,
                EasingFunction::EaseInOut,
            ),
            final(self).transition_progress == old(self).transition_progress,
            final(self).menu_highlight == old(self).menu_highlight,
            final(self).success_celebration == old(self).success_celebration,
    {
        self.background_pulse.animate_to(EASE_SCALE, 200, EasingFunction::EaseInOut);
    }
}

/// The frame sets a spinner can play.
#[derive(Debug, Clone, Copy, PartialEq, Eq, Structural)]
pub enum SpinnerStyle {
    Dots,
    BouncingBall,
    Pulsing,
}

pub open spec fn spinner_frame_count(style: SpinnerStyle) -> int {
    match style {
        SpinnerStyle::Dots => 10,
        SpinnerStyle::BouncingBall => 8,
        SpinnerStyle::Pulsing => 9,
    }
}

pub open spec fn spinner_frame_ms(style: SpinnerStyle) -> int {
    match style {
        SpinnerStyle::Dots => 80,
        SpinnerStyle::BouncingBall => 100,
        SpinnerStyle::Pulsing => 150,
    }
}

/// A looping frame-by-frame loading animation.
#[derive(Debug, Clone, Copy, PartialEq, Eq, Structural)]
pub struct SpinnerAnimation {
    pub style: SpinnerStyle,
    pub current_frame_index: usize,
    pub frame_duration_ms: u64,
    pub elapsed_ms: u64,
}

impl SpinnerAnimation {
    pub open spec fn wf(self) -> bool {
        &&& self.current_frame_index < spinner_frame_count(self.style)
        &&& self.frame_duration_ms == spinner_frame_ms(self.style)
        &&& self.elapsed_ms < self.frame_duration_ms
    }

    pub fn dots() -> (r: SpinnerAnimation)
        ensures
            r.wf(),
            r.style is Dots,
            r.current_frame_index == 0,
            r.elapsed_ms == 0,
    {
        SpinnerAnimation {
            style: SpinnerStyle::Dots,
            current_frame_index: 0,
            frame_duration_ms: 80,
            elapsed_ms: 0,
        }
    }

    pub fn bouncing_ball() -> (r: SpinnerAnimation)
        ensures
            r.wf(),
            r.style is BouncingBall,
            r.current_frame_index == 0,
            r.elapsed_ms == 0,
    {
        SpinnerAnimation {
            style: SpinnerStyle::BouncingBall,
            current_frame_index: 0,
            frame_duration_ms: 100,
            elapsed_ms: 0,
        }
    }

    pub fn pulsing() -> (r: SpinnerAnimation)
        ensures
            r.wf(),
            r.style is Pulsing,
            r.current_frame_index == 0,
            r.elapsed_ms == 0,
    {
        SpinnerAnimation {
            style: SpinnerStyle::Pulsing,
            current_frame_index: 0,
            frame_duration_ms: 150,
            elapsed_ms: 0,
        }
    }

    /// Advance the spinner: once a frame's duration has accumulated, move
    /// to the next frame (wrapping around) and restart the frame clock.
    pub fn update(&mut self, delta_ms: u64)
        requires
            old(self).wf(),
            delta_ms <= TIME_LIMIT,
        ensures
            final(self).wf(),
            final(self).style == old(self).style,
            old(self).elapsed_ms + delta_ms >= old(self).frame_duration_ms ==> {
                &&& final(self).current_frame_index == (old(self).current_frame_index + 1) as int
                    % spinner_frame_count(old(self).style)
                &&& final(self).elapsed_ms == 0
            },
            old(self).elapsed_ms + delta_ms < old(self).frame_duration_ms ==> {
                &&& final(self).current_frame_index == old(self).current_frame_index
                &&& final(self).elapsed_ms == old(self).elapsed_ms + delta_ms
            },
    {
        let new_elapsed = self.elapsed_ms + delta_ms;
        if new_elapsed >= self.frame_duration_ms {
            let n = match self.style {
                SpinnerStyle::Dots => 10,
                SpinnerStyle::BouncingBall => 8,
                SpinnerStyle::Pulsing => 9,
            };
            self.current_frame_index = (self.current_frame_index + 1) % n;
            self.elapsed_ms = 0;
        } else {
            self.elapsed_ms = new_elapsed;
        }
    }

    /// The glyph the spinner shows right now.
    pub fn current_frame(&self) -> (r: &'static str)
        requires
            self.wf(),
        ensures
            r@.len() == 1,
    {
        // The arrays share one length; the frame index never reaches a
        // style's padding entries.
        let frames: [&'static str; 10] = match self.style {
            SpinnerStyle::Dots => [
                "\u{280b}",
                "\u{2819}",
                "\u{2839}",
                "\u{2838}",
                "\u{283c}",
                "\u{2834}",
                "\u{2826}",
                "\u{2827}",
                "\u{2807}",
                "\u{280f}",
            ],
            SpinnerStyle::BouncingBall => [
                "\u{2801}",
                "\u{2802}",
                "\u{2804}",
                "\u{2840}",
                "\u{2880}",
                "\u{2820}",
                "\u{2810}",
                "\u{2808}",
                "\u{2801}",
                "\u{2801}",
            ],
            SpinnerStyle::Pulsing => [
                "\u{25cf}",
                "\u{25d0}",
                "\u{25d1}",
                "\u{25d2}",
                "\u{25d3}",
                "\u{25d4}",
                "\u{25d5}",
                "\u{25d6}",
                "\u{25d7}",
                "\u{25cf}",
            ],
        };
        let r = frames[self.current_frame_index];
        proof {
            reveal_strlit("\u{280b}");
            reveal_strlit("\u{2819}");
            reveal_strlit("\u{2839}");
            reveal_strlit("\u{2838}");
            reveal_strlit("\u{283c}");
            reveal_strlit("\u{2834}");
            reveal_strlit("\u{2826}");
            reveal_strlit("\u{2827}");
            reveal_strlit("\u{2807}");
            reveal_strlit("\u{280f}");
            reveal_strlit("\u{2801}");
            reveal_strlit("\u{2802}");
            reveal_strlit("\u{2804}");
            reveal_strlit("\u{2840}");
            reveal_strlit("\u{2880}");
            reveal_strlit("\u{2820}");
            reveal_strlit("\u{2810}");
            reveal_strlit("\u{2808}");
            reveal_strlit("\u{25cf}");
            reveal_strlit("\u{25d0}");
            reveal_strlit("\u{25d1}");
            reveal_strlit("\u{25d2}");
            reveal_strlit("\u{25d3}");
            reveal_strlit("\u{25d4}");
            reveal_strlit("\u{25d5}");
            reveal_strlit("\u{25d6}");
            reveal_strlit("\u{25d7}");
        }
        r
    }
}

/// An animated progress bar: an eased progress tween plus a repeating
/// pulse.
#[derive(Debug, Clone, Copy, PartialEq, Eq, Structural)]
pub struct ProgressAnimation {
    pub progress: AnimatedValue,
    pub pulse: AnimatedValue,
}

impl ProgressAnimation {
    pub open spec fn wf(self) -> bool {
        self.progress.wf() && self.pulse.wf()
    }

    pub fn new() -> (r: ProgressAnimation)
        ensures
            r.wf(),
            r.progress == AnimatedValue::new_spec(0),
            r.pulse == AnimatedValue::new_spec(0),
    {
        ProgressAnimation { progress: AnimatedValue::new(0), pulse: AnimatedValue::new(0) }
    }

    /// Glide the bar towards a target fill, clamped into the unit range.
    pub fn set_progress(&mut self, target: i64)
        requires
            old(self).wf(),
        ensures
            final(self).wf(),
            final(self).progress == old(self).progress.animate_to_spec(
                clamp_i(target as int, 0, EASE_SCALE as int) as i64,
                500,
                EasingFunction::EaseOut,
            ),
            final(self).pulse == old(self).pulse,
    {
        let clamped = clamp_exec(target, 0, EASE_SCALE);
        self.progress.animate_to(clamped, 500, EasingFunction::EaseOut);
    }

    /// Swell the pulse towards full brightness.
    pub fn start_pulse(&mut self)
        requires
            old(self).wf(),
        ensures
            final(self).wf(),
            final(self).pulse == old(self).pulse.animate_to_spec(
                EASE_SCALE,
                800,
                EasingFunction::EaseInOut,
            ),
            final(self).progress == old(self).progress,
    {
        self.pulse.animate_to(EASE_SCALE, 800, EasingFunction::EaseInOut);
    }

    /// Advance both tweens; when the pulse has settled while still
    /// bright, send it back down so it keeps breathing.
    pub fn update(&mut self, delta_ms: u64)
        requires
            old(self).wf(),
            delta_ms <= TIME_LIMIT,
        ensures
            final(self).wf(),
            old(self).progress.updated(final(self).progress, delta_ms),
            exists|mid: AnimatedValue|
                {
                    &&& #[trigger] old(self).pulse.updated(mid, delta_ms)
                    &&& final(self).pulse == if !mid.animating && mid.current_value > EASE_SCALE
                        / 2 {
                        mid.animate_to_spec(0, 800, EasingFunction::EaseInOut)
                    } else {
                        mid
                    }
                },
    {
        self.progress.update(delta_ms);
        self.pulse.update(delta_ms);
        let ghost mid = self.pulse;
        if !self.pulse.is_animating() && self.pulse.value() > EASE_SCALE / 2 {
            self.pulse.animate_to(0, 800, EasingFunction::EaseInOut);
        }
        proof {
            assert(old(self).pulse.updated(mid, delta_ms));
        }
    }
}

} // verus!
