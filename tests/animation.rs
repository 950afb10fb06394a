use rainbow_led::animation::{AnimationState, HUE_STEP};
use rainbow_led::button::{ButtonEdge, Debouncer};
use rainbow_led::color::Hsv;

#[test]
fn advance_steps_the_hue() {
    let mut a = AnimationState::new();
    assert_eq!(a.hue, 0);
    let c = a.advance();
    assert_eq!(c, Hsv { hue: HUE_STEP, saturation: 255, value: 255 });
    assert_eq!(a.hue, 10);
}

#[test]
fn advance_wraps_at_256() {
    let mut a = AnimationState { hue: 250 };
    assert_eq!(a.advance().hue, 4);
}

#[test]
fn twenty_six_steps_come_back_near_start() {
    let mut a = AnimationState::new();
    let mut seen = Vec::new();
    for _ in 0..26 {
        seen.push(a.advance().hue);
    }
    assert_eq!(a.hue, 4);
    assert!(a.hue < HUE_STEP);
    let mut distinct = seen.clone();
    distinct.sort();
    distinct.dedup();
    assert_eq!(distinct.len(), 26);
}

#[test]
fn held_button_reports_pressed_every_tick() {
    let mut d = Debouncer::new();
    assert_eq!(d.poll(false), ButtonEdge::Pressed);
    assert_eq!(d.poll(false), ButtonEdge::Pressed);
    assert_eq!(d.poll(false), ButtonEdge::Pressed);
}

#[test]
fn release_and_idle_edges() {
    let mut d = Debouncer::new();
    assert_eq!(d.poll(true), ButtonEdge::NoChange);
    assert_eq!(d.poll(false), ButtonEdge::Pressed);
    assert_eq!(d.poll(true), ButtonEdge::Released);
    assert_eq!(d.poll(true), ButtonEdge::NoChange);
}
