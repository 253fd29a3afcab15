use druid_material::animation::{AnimationDriver, TickOutcome};
use druid_material::checkbox::{Checkbox, RIPPLE_FROM, RIPPLE_TIME, RIPPLE_TO};
use druid_material::switch::{Switch, KNOB_OFF, KNOB_ON, SWITCH_CHANGE_TIME};
use druid_material::theme::{material_defaults, ColorKey};
use druid_material::toggle::{Event, Lifecycle, Overlay, Requests};

const MS: u64 = 1_000_000;

fn hovered_switch() -> Switch {
    let mut s = Switch::new();
    s.toggle.lifecycle(Lifecycle::HotChanged(true));
    s
}

fn running_token(s: &Switch) -> u64 {
    s.toggle.driver.current.expect("an animation should be running").token
}

#[test]
fn press_release_over_widget_commits() {
    let mut s = hovered_switch();
    let mut data = false;
    let r = s.toggle.event(Event::Press, &mut data);
    assert!(r.repaint);
    assert!(s.toggle.interaction.active);
    let r = s.toggle.event(Event::Release, &mut data);
    assert!(data);
    assert!(!s.toggle.interaction.active);
    let a = s.toggle.driver.current.expect("running");
    assert!(a.goal);
    assert_eq!(a.start, KNOB_OFF);
    assert_eq!(a.target, KNOB_ON);
    assert_eq!(a.progress, KNOB_OFF);
    assert!(r.repaint && r.anim_frame);
    assert_eq!(r.expiry, None);
}

#[test]
fn press_release_away_from_widget_cancels() {
    let mut s = Switch::new();
    let mut data = false;
    s.toggle.event(Event::Press, &mut data);
    let r = s.toggle.event(Event::Release, &mut data);
    assert!(!data);
    assert!(!s.toggle.interaction.active);
    assert!(s.toggle.driver.current.is_none());
    assert!(r.repaint);
    assert!(!r.anim_frame);
}

#[test]
fn ticks_summing_to_duration_finish_once() {
    let mut s = hovered_switch();
    let mut data = false;
    s.toggle.event(Event::Press, &mut data);
    s.toggle.event(Event::Release, &mut data);
    let token = running_token(&s);
    let r = s.toggle.event(Event::Tick { token, delta: 50 * MS }, &mut data);
    assert!(r.anim_frame);
    assert_eq!(s.knob_x(data), 14_000);
    let r = s.toggle.event(Event::Tick { token, delta: 50 * MS }, &mut data);
    assert!(r.anim_frame);
    assert_eq!(s.knob_x(data), 18_000);
    let r = s.toggle.event(Event::Tick { token, delta: 100 * MS }, &mut data);
    assert!(r.repaint && !r.anim_frame);
    assert!(s.toggle.driver.current.is_none());
    assert_eq!(s.knob_x(data), KNOB_ON);
    let before = s;
    let r = s.toggle.event(Event::Tick { token, delta: 50 * MS }, &mut data);
    assert_eq!(s, before);
    assert!(!r.repaint && !r.anim_frame);
    assert!(data);
}

#[test]
fn second_trigger_makes_first_token_stale() {
    let mut s = hovered_switch();
    let mut data = false;
    s.toggle.event(Event::Press, &mut data);
    s.toggle.event(Event::Release, &mut data);
    let first = running_token(&s);
    s.toggle.event(Event::Tick { token: first, delta: 50 * MS }, &mut data);
    s.toggle.event(Event::Press, &mut data);
    s.toggle.event(Event::Release, &mut data);
    assert!(!data);
    let second = running_token(&s);
    assert_ne!(first, second);
    let a = s.toggle.driver.current.unwrap();
    assert_eq!(a.start, 14_000);
    assert_eq!(a.progress, 14_000);
    assert_eq!(a.target, KNOB_OFF);
    let before = s;
    let r = s.toggle.event(Event::Tick { token: first, delta: 10 * MS }, &mut data);
    assert_eq!(s, before);
    assert_eq!(r, Requests { repaint: false, anim_frame: false, expiry: None, register_focus: false });
    s.toggle.event(Event::Tick { token: second, delta: 50 * MS }, &mut data);
    assert_eq!(s.knob_x(data), 13_000);
}

#[test]
fn active_only_between_press_and_release() {
    let mut s = hovered_switch();
    let mut data = false;
    assert!(!s.toggle.interaction.active);
    s.toggle.event(Event::Press, &mut data);
    s.toggle.event(Event::Press, &mut data);
    assert!(s.toggle.interaction.active);
    let token = running_token_or_zero(&s);
    s.toggle.event(Event::Tick { token, delta: MS }, &mut data);
    assert!(s.toggle.interaction.active);
    s.toggle.event(Event::Release, &mut data);
    assert!(!s.toggle.interaction.active);
    s.toggle.event(Event::Release, &mut data);
    assert!(!s.toggle.interaction.active);
}

fn running_token_or_zero(s: &Switch) -> u64 {
    s.toggle.driver.current.map(|a| a.token).unwrap_or(0)
}

#[test]
fn release_without_press_changes_nothing() {
    let mut s = hovered_switch();
    let mut data = true;
    let before = s;
    s.toggle.event(Event::Release, &mut data);
    assert!(data);
    assert_eq!(s, before);
}

#[test]
fn leaving_before_release_keeps_value() {
    let mut s = hovered_switch();
    let mut data = true;
    s.toggle.event(Event::Press, &mut data);
    s.toggle.lifecycle(Lifecycle::HotChanged(false));
    s.toggle.event(Event::Release, &mut data);
    assert!(data);
    assert!(s.toggle.driver.current.is_none());
}

#[test]
fn each_completed_gesture_flips_once() {
    let mut s = hovered_switch();
    let mut data = false;
    for i in 0..4 {
        s.toggle.event(Event::Press, &mut data);
        s.toggle.event(Event::Release, &mut data);
        assert_eq!(data, i % 2 == 0);
    }
}

#[test]
fn progress_never_overshoots() {
    let mut d = AnimationDriver::new(200, false);
    let token = d.start(true, 0, 1_000);
    let mut last: u32 = 0;
    for delta in [1u64, 0, 7, 33, 1, 90] {
        assert_eq!(d.tick(token, delta), TickOutcome::Moving);
        let p = d.current.unwrap().progress;
        assert!(p >= last && p <= 1_000);
        last = p;
    }
    assert_eq!(last, 660);
    assert_eq!(d.tick(token, u64::MAX), TickOutcome::Finished);
    assert!(d.current.is_none());
}

#[test]
fn progress_moves_downward_too() {
    let mut d = AnimationDriver::new(4, false);
    let token = d.start(false, 100, 20);
    assert_eq!(d.tick(token, 1), TickOutcome::Moving);
    assert_eq!(d.current.unwrap().progress, 80);
    assert_eq!(d.tick(token, 2), TickOutcome::Moving);
    assert_eq!(d.current.unwrap().progress, 40);
    assert_eq!(d.tick(token, 5), TickOutcome::Finished);
}

#[test]
fn stale_tick_and_expiry_are_ignored() {
    let mut d = AnimationDriver::new(100, true);
    assert_eq!(d.tick(0, 5), TickOutcome::Stale);
    assert!(!d.expire(0));
    let token = d.start(true, 0, 10);
    let before = d;
    assert_eq!(d.tick(token + 1, 5), TickOutcome::Stale);
    assert!(!d.expire(token + 1));
    assert_eq!(d, before);
    assert!(d.expire(token));
    assert!(d.current.is_none());
}

#[test]
fn external_change_animates_like_a_click() {
    let mut clicked = hovered_switch();
    let mut data = false;
    clicked.toggle.event(Event::Press, &mut data);
    clicked.toggle.event(Event::Release, &mut data);
    let mut external = hovered_switch();
    let r = external.toggle.update(false, true);
    assert!(r.anim_frame);
    assert_eq!(external.toggle.driver, clicked.toggle.driver);
    let r = clicked.toggle.update(false, true);
    assert!(r.repaint && !r.anim_frame);
    assert_eq!(clicked.toggle.driver, external.toggle.driver);
    let mut idle = Switch::new();
    let r = idle.toggle.update(true, true);
    assert!(!r.anim_frame);
    assert!(idle.toggle.driver.current.is_none());
}

#[test]
fn checkbox_ripple_expires_on_timer() {
    let mut c = Checkbox::new();
    c.toggle.lifecycle(Lifecycle::HotChanged(true));
    let mut data = false;
    c.toggle.event(Event::Press, &mut data);
    let r = c.toggle.event(Event::Release, &mut data);
    assert!(data);
    let token = c.toggle.driver.current.unwrap().token;
    assert_eq!(r.expiry, Some(token));
    assert_eq!(c.toggle.overlay(), Overlay::Ripple(RIPPLE_FROM));
    c.toggle.event(Event::Tick { token, delta: RIPPLE_TIME / 2 }, &mut data);
    assert_eq!(c.toggle.overlay(), Overlay::Ripple(15_750));
    assert_eq!(RIPPLE_TO, 21_500);
    let r = c.toggle.event(Event::Expire { token }, &mut data);
    assert!(r.repaint);
    assert_eq!(c.toggle.overlay(), Overlay::Hover);
}

#[test]
fn overlay_precedence() {
    let mut c = Checkbox::new();
    assert_eq!(c.toggle.overlay(), Overlay::Plain);
    c.toggle.lifecycle(Lifecycle::HotChanged(true));
    assert_eq!(c.toggle.overlay(), Overlay::Hover);
    c.toggle.lifecycle(Lifecycle::FocusChanged(true));
    assert_eq!(c.toggle.overlay(), Overlay::Focus);
    c.toggle.update(false, true);
    assert_eq!(c.toggle.overlay(), Overlay::Ripple(RIPPLE_FROM));
}

#[test]
fn focus_registration_happens_once() {
    let mut c = Checkbox::new();
    let r = c.toggle.lifecycle(Lifecycle::WidgetAdded);
    assert!(r.register_focus);
    let r = c.toggle.lifecycle(Lifecycle::WidgetAdded);
    assert!(!r.register_focus);
}

#[test]
fn border_color_follows_value() {
    assert_eq!(Checkbox::border_color(true), ColorKey::Primary);
    assert_eq!(Checkbox::border_color(false), ColorKey::BorderLight);
}

#[test]
fn switch_rests_by_value() {
    let s = Switch::default();
    assert_eq!(s.knob_x(false), KNOB_OFF);
    assert_eq!(s.knob_x(true), KNOB_ON);
    assert_eq!(s.toggle.driver.duration, SWITCH_CHANGE_TIME);
}

#[test]
fn default_palette_values() {
    let p = material_defaults();
    assert_eq!(p.len(), 16);
    assert_eq!(p[0], (ColorKey::Primary, 0x6200EEFF));
    assert_eq!(p[12], (ColorKey::BorderLight, 0x444444FF));
    assert!(p.iter().all(|(k, _)| *k != ColorKey::Error));
}
