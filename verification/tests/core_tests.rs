use scv::animation::{AnimatedValue, AnimationState, CelebrationAnimation, Particle, SpinnerAnimation};
use scv::easing::{EasingFunction, EASE_SCALE};
use scv::keys::{KeyCode, KeyInput};
use scv::screen::{ScreenType, ScreenTypeVariant};
use scv::state::{AppState, Banner, NavigationStack};

#[test]
fn easing_endpoints_hold_for_every_curve() {
    let curves = [
        EasingFunction::Linear,
        EasingFunction::EaseIn,
        EasingFunction::EaseOut,
        EasingFunction::EaseInOut,
        EasingFunction::Bounce,
        EasingFunction::Elastic,
    ];
    for curve in curves {
        assert_eq!(curve.apply(0), 0);
        assert_eq!(curve.apply(EASE_SCALE), EASE_SCALE);
        assert_eq!(curve.apply(-5), 0, "inputs below zero are clamped");
        assert_eq!(curve.apply(EASE_SCALE + 5), EASE_SCALE, "inputs past one are clamped");
    }
}

#[test]
fn easing_monotone_for_plain_curves() {
    let curves = [
        EasingFunction::Linear,
        EasingFunction::EaseIn,
        EasingFunction::EaseOut,
        EasingFunction::EaseInOut,
    ];
    for curve in curves {
        let mut prev = 0;
        let mut t = 0;
        while t <= EASE_SCALE {
            let v = curve.apply(t);
            assert!(v >= prev, "curve dipped at {}", t);
            assert!((0..=EASE_SCALE).contains(&v));
            prev = v;
            t += 55;
        }
    }
}

#[test]
fn easing_known_values() {
    // Quadratic ease-in at the midpoint is a quarter of the way up.
    assert_eq!(EasingFunction::EaseIn.apply(EASE_SCALE / 2), EASE_SCALE / 4);
    assert_eq!(EasingFunction::EaseOut.apply(EASE_SCALE / 2), EASE_SCALE - EASE_SCALE / 4);
    assert_eq!(EasingFunction::EaseInOut.apply(EASE_SCALE / 2), EASE_SCALE / 2);
    assert_eq!(EasingFunction::Linear.apply(1234), 1234);
}

#[test]
fn tween_settles_exactly_on_target() {
    let mut v = AnimatedValue::new(100);
    v.animate_to(900, 300, EasingFunction::EaseInOut);
    assert!(v.is_animating());
    v.update(300);
    assert_eq!(v.value(), 900);
    assert!(!v.is_animating());

    // Advancing far past the duration settles just the same.
    let mut w = AnimatedValue::new(-50);
    w.animate_to(-400, 200, EasingFunction::Elastic);
    w.update(100000);
    assert_eq!(w.value(), -400);
    assert!(!w.is_animating());
}

#[test]
fn tween_retarget_mid_flight_starts_from_current_value() {
    let mut v = AnimatedValue::new(0);
    v.animate_to(1000, 400, EasingFunction::Linear);
    v.update(200);
    let mid = v.value();
    assert!(mid > 0 && mid < 1000);
    v.animate_to(0, 100, EasingFunction::Linear);
    assert_eq!(v.value(), mid, "no visual jump on retarget");
    v.update(100);
    assert_eq!(v.value(), 0);
}

#[test]
fn tween_stays_inside_interval() {
    let mut v = AnimatedValue::new(10);
    v.animate_to(20, 1000, EasingFunction::Bounce);
    for _ in 0..10 {
        v.update(77);
        assert!((10..=20).contains(&v.value()));
    }
}

#[test]
fn set_immediate_jumps_and_stops() {
    let mut v = AnimatedValue::new(5);
    v.animate_to(50, 300, EasingFunction::EaseIn);
    v.set_immediate(42);
    assert_eq!(v.value(), 42);
    assert!(!v.is_animating());
}

#[test]
fn navigation_stack_is_lifo() {
    let mut nav = NavigationStack::new();
    assert!(!nav.can_go_back());
    let a = ScreenType::new(ScreenTypeVariant::MainMenu);
    let b = ScreenType::new(ScreenTypeVariant::ClassSelection);
    nav.push(a);
    nav.push(b);
    assert!(nav.can_go_back());
    let first = nav.pop().expect("two entries pushed");
    assert_eq!(*first.variant(), ScreenTypeVariant::ClassSelection);
    let second = nav.pop().expect("one entry left");
    assert_eq!(*second.variant(), ScreenTypeVariant::MainMenu);
    assert!(nav.pop().is_none(), "a third pop yields none");
    assert!(!nav.can_go_back());
}

#[test]
fn app_state_banner_and_loading() {
    let mut state = AppState::new("/tmp/repos".to_string());
    assert!(!state.is_loading());
    assert!(state.loading_message().is_none());
    state.set_loading(true, "Working...".to_string());
    assert_eq!(state.loading_message().unwrap(), "Working...");
    state.set_error(Some("boom".to_string()));
    assert!(state.has_banner());
    match state.error().unwrap() {
        Banner::Error(m) => assert_eq!(m, "boom"),
        Banner::Success(_) => panic!("expected an error banner"),
    }
    state.set_success("done".to_string());
    match state.error().unwrap() {
        Banner::Success(m) => assert_eq!(m, "done"),
        Banner::Error(_) => panic!("expected a success banner"),
    }
    state.set_error(None);
    assert!(!state.has_banner());
}

#[test]
fn spinner_cycles_through_frames() {
    let mut s = SpinnerAnimation::dots();
    let first = s.current_frame();
    s.update(79);
    assert_eq!(s.current_frame(), first, "within one frame duration");
    s.update(1);
    assert_ne!(s.current_frame(), first, "the frame advanced");
    for _ in 0..9 {
        s.update(80);
    }
    assert_eq!(s.current_frame(), first, "ten frames wrap around");
}

#[test]
fn particles_fall_and_expire() {
    let mut p = Particle::new_confetti();
    assert!((0..80_000).contains(&p.x));
    assert!((-10_000..0).contains(&p.y));
    assert!((-2_000..2_000).contains(&p.velocity_x));
    assert!((1_000..3_000).contains(&p.velocity_y));
    assert!(p.is_alive());
    let vy0 = p.velocity_y;
    p.update(1000);
    assert!(p.velocity_y > vy0, "gravity pulls downward speed up");
    p.update(1000);
    p.update(1000);
    assert!(!p.is_alive(), "life is spent after three seconds");
    assert_eq!(p.alpha(), 0);
}

#[test]
fn celebration_finishes_by_its_own_clock() {
    let mut c = CelebrationAnimation::new();
    assert!(!c.is_finished());
    assert_eq!(c.particles().len(), 50);
    c.update(2999);
    assert!(!c.is_finished());
    c.update(1);
    assert!(c.is_finished());
}

#[test]
fn animation_state_drops_finished_celebration() {
    let mut a = AnimationState::new();
    assert!(a.success_celebration.is_none());
    a.trigger_success_celebration();
    assert!(a.success_celebration.is_some());
    a.update(1000);
    assert!(a.success_celebration.is_some());
    a.update(2500);
    assert!(a.success_celebration.is_none(), "removed once finished");
}

#[test]
fn key_helpers() {
    let plain = KeyInput::plain(KeyCode::Char('q'));
    assert!(!plain.ctrl);
    let ctrl = KeyInput::with_ctrl(KeyCode::Char('c'));
    assert!(ctrl.ctrl);
}
