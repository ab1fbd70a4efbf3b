use yewxel::placement::Rect;
use yewxel::xcontainer::XContainerContext;
use yewxel::xmenuitem::{
    press_reset_delay, PointerKind, PointerPress, PressSession, RipplePhase, XMenuItem,
    XMenuItemMessage, XMenuItemTriggerEffect,
};
use yewxel::{ComputedSize, XComponentSize};

const RIPPLE: XMenuItemTriggerEffect = XMenuItemTriggerEffect::Ripple;

fn item() -> XMenuItem {
    XMenuItem::new(XContainerContext { size: ComputedSize::Medium })
}

fn press(kind: PointerKind, at: u64) -> PointerPress {
    PointerPress {
        buttons: 1,
        on_this_item: true,
        kind,
        at,
        client_x: 50,
        client_y: 20,
        area: Rect::new(10, 5, 100, 30),
    }
}

#[test]
fn press_adds_centred_ripple() {
    let mut m = item();
    let e = m.update(RIPPLE, XMenuItemMessage::PointerDown(press(PointerKind::Mouse, 1000)));
    assert!(e.capture_pointer);
    assert!(e.start_out.is_empty() && e.reset_after.is_none() && !e.trigger_end);
    assert!(m.is_pressed());
    assert_eq!(m.session, Some(PressSession { started_at: 1000, kind: PointerKind::Mouse }));
    assert_eq!(m.ripples.len(), 1);
    let r = m.ripples[0];
    assert_eq!((r.identity, r.size, r.top, r.left), (0, 150, -60, -35));
    assert_eq!(r.phase_in, RipplePhase::Created);
    let rendered = m.rendered();
    assert_eq!(rendered.start_in, vec![0]);
    assert!(rendered.recapture_pointer);
    assert_eq!(m.ripples[0].phase_in, RipplePhase::Started);
    let again = m.rendered();
    assert!(again.start_in.is_empty() && !again.recapture_pointer);
}

#[test]
fn quick_mouse_release_waits_out_minimum() {
    let mut m = item();
    m.update(RIPPLE, XMenuItemMessage::PointerDown(press(PointerKind::Mouse, 1000)));
    let e = m.update(RIPPLE, XMenuItemMessage::PointerUp(1040));
    assert_eq!(e.reset_after, Some(110));
    assert!(e.reset_after.unwrap() >= 150 - 40);
    assert!(m.session.is_none());
    assert!(m.is_pressed());
    m.update(RIPPLE, XMenuItemMessage::ResetPressed);
    assert!(!m.is_pressed());
}

#[test]
fn quick_touch_release_waits_out_minimum() {
    let mut m = item();
    m.update(RIPPLE, XMenuItemMessage::PointerDown(press(PointerKind::Touch, 1000)));
    let e = m.update(RIPPLE, XMenuItemMessage::PointerUp(1040));
    assert_eq!(e.reset_after, Some(560));
    assert!(e.reset_after.unwrap() >= 600 - 40);
}

#[test]
fn long_press_resets_at_once() {
    let mut m = item();
    m.update(RIPPLE, XMenuItemMessage::PointerDown(press(PointerKind::Pen, 1000)));
    let e = m.update(RIPPLE, XMenuItemMessage::PointerUp(1400));
    assert_eq!(e.reset_after, Some(0));
    let s = PressSession { started_at: 1000, kind: PointerKind::Touch };
    assert_eq!(press_reset_delay(&s, 1600), 0);
    assert_eq!(press_reset_delay(&s, 1599), 1);
    assert_eq!(press_reset_delay(&s, 900), 600);
}

#[test]
fn fade_out_waits_for_grow_in_after_release() {
    let mut m = item();
    m.update(RIPPLE, XMenuItemMessage::PointerDown(press(PointerKind::Mouse, 1000)));
    m.rendered();
    let up = m.update(RIPPLE, XMenuItemMessage::PointerUp(1050));
    assert!(up.start_out.is_empty());
    assert_eq!(m.ripples[0].phase_out, RipplePhase::Created);
    let grown = m.update(RIPPLE, XMenuItemMessage::RippleInAnimationFinished(0));
    assert_eq!(grown.start_out, vec![0]);
    assert_eq!(m.ripples[0].phase_in, RipplePhase::Finished);
    assert_eq!(m.ripples[0].phase_out, RipplePhase::Started);
    let gone = m.update(RIPPLE, XMenuItemMessage::RippleOutAnimationFinished(0));
    assert!(gone.trigger_end);
    assert!(m.ripples.is_empty());
}

#[test]
fn fade_out_waits_for_release_after_grow_in() {
    let mut m = item();
    m.update(RIPPLE, XMenuItemMessage::PointerDown(press(PointerKind::Mouse, 1000)));
    m.rendered();
    let grown = m.update(RIPPLE, XMenuItemMessage::RippleInAnimationFinished(0));
    assert!(grown.start_out.is_empty());
    assert_eq!(m.ripples[0].phase_out, RipplePhase::Created);
    let up = m.update(RIPPLE, XMenuItemMessage::PointerUp(1300));
    assert_eq!(up.start_out, vec![0]);
    assert_eq!(m.ripples[0].phase_out, RipplePhase::Started);
}

#[test]
fn rejected_presses_change_nothing() {
    let mut m = item();
    let two_buttons = PointerPress { buttons: 3, ..press(PointerKind::Mouse, 1000) };
    let e = m.update(RIPPLE, XMenuItemMessage::PointerDown(two_buttons));
    assert!(!e.capture_pointer);
    let nested = PointerPress { on_this_item: false, ..press(PointerKind::Mouse, 1000) };
    let e = m.update(RIPPLE, XMenuItemMessage::PointerDown(nested));
    assert!(!e.capture_pointer);
    assert!(m.session.is_none() && m.ripples.is_empty() && !m.is_pressed());
    let e = m.update(RIPPLE, XMenuItemMessage::PointerUp(2000));
    assert!(e.reset_after.is_none());
}

#[test]
fn a_single_button_of_any_kind_is_taken() {
    let mut m = item();
    let secondary = PointerPress { buttons: 2, ..press(PointerKind::Mouse, 1000) };
    let e = m.update(RIPPLE, XMenuItemMessage::PointerDown(secondary));
    assert!(e.capture_pointer);
    let mut n = item();
    let none_held = PointerPress { buttons: 0, ..press(PointerKind::Touch, 1000) };
    assert!(n.update(RIPPLE, XMenuItemMessage::PointerDown(none_held)).capture_pointer);
    let mut k = item();
    let two = PointerPress { buttons: 5, ..press(PointerKind::Mouse, 1000) };
    assert!(!k.update(RIPPLE, XMenuItemMessage::PointerDown(two)).capture_pointer);
    assert_eq!(yewxel::xmenuitem::count_buttons(0b1011), 3);
}

#[test]
fn blink_effect_adds_no_ripple() {
    let mut m = item();
    let e = m.update(XMenuItemTriggerEffect::Blink, XMenuItemMessage::PointerDown(press(PointerKind::Mouse, 1)));
    assert!(e.capture_pointer);
    assert!(m.ripples.is_empty());
    assert!(m.is_pressed());
    let e = m.update(XMenuItemTriggerEffect::NoEffect, XMenuItemMessage::PointerDown(press(PointerKind::Mouse, 2)));
    assert!(e.capture_pointer);
    assert!(m.ripples.is_empty());
}

#[test]
fn reset_is_ignored_while_a_new_press_is_held() {
    let mut m = item();
    m.update(RIPPLE, XMenuItemMessage::PointerDown(press(PointerKind::Mouse, 1000)));
    m.update(RIPPLE, XMenuItemMessage::PointerUp(1010));
    m.update(RIPPLE, XMenuItemMessage::PointerDown(press(PointerKind::Mouse, 1100)));
    m.update(RIPPLE, XMenuItemMessage::ResetPressed);
    assert!(m.is_pressed());
}

#[test]
fn identities_are_reused_after_removal() {
    let mut m = item();
    m.update(RIPPLE, XMenuItemMessage::PointerDown(press(PointerKind::Mouse, 1)));
    m.update(RIPPLE, XMenuItemMessage::PointerDown(press(PointerKind::Mouse, 2)));
    assert_eq!(m.ripples.iter().map(|r| r.identity).collect::<Vec<_>>(), vec![0, 1]);
    m.rendered();
    m.update(RIPPLE, XMenuItemMessage::PointerUp(3));
    let e = m.update(RIPPLE, XMenuItemMessage::RippleInAnimationFinished(0));
    assert_eq!(e.start_out, vec![0]);
    let e = m.update(RIPPLE, XMenuItemMessage::RippleOutAnimationFinished(0));
    assert!(!e.trigger_end);
    assert_eq!(m.ripples.len(), 1);
    assert_eq!(m.ripples[0].identity, 1);
    m.update(RIPPLE, XMenuItemMessage::PointerDown(press(PointerKind::Mouse, 4)));
    assert_eq!(m.ripples[1].identity, 0);
}

#[test]
fn stale_completions_are_absorbed() {
    let mut m = item();
    let e = m.update(RIPPLE, XMenuItemMessage::RippleOutAnimationFinished(7));
    assert!(!e.trigger_end);
    let e = m.update(RIPPLE, XMenuItemMessage::RippleInAnimationFinished(7));
    assert!(e.start_out.is_empty());
    m.update(RIPPLE, XMenuItemMessage::PointerDown(press(PointerKind::Mouse, 1)));
    m.rendered();
    // the fade-out has not started, so its completion is stale
    let e = m.update(RIPPLE, XMenuItemMessage::RippleOutAnimationFinished(0));
    assert!(!e.trigger_end);
    assert_eq!(m.ripples.len(), 1);
    m.update(RIPPLE, XMenuItemMessage::PointerUp(2));
    m.update(RIPPLE, XMenuItemMessage::RippleInAnimationFinished(0));
    let e = m.update(RIPPLE, XMenuItemMessage::RippleInAnimationFinished(0));
    assert!(e.start_out.is_empty());
}

#[test]
fn focus_and_container_updates() {
    let mut m = item();
    m.update(RIPPLE, XMenuItemMessage::Focus);
    assert!(m.focused);
    m.update(RIPPLE, XMenuItemMessage::Blur);
    assert!(!m.focused);
    m.update(RIPPLE, XMenuItemMessage::ContainerUpdated(XContainerContext { size: ComputedSize::Large }));
    assert_eq!(m.container.size, ComputedSize::Large);
    assert_eq!(m.classes(Some(XComponentSize::Smaller), false, false), "x-menuitem computedsize-medium");
}

#[test]
fn menu_item_class_list() {
    let mut m = item();
    assert_eq!(m.classes(None, true, true), "x-menuitem computedsize-medium togglable toggled");
    m.update(RIPPLE, XMenuItemMessage::PointerDown(press(PointerKind::Mouse, 1)));
    assert_eq!(m.classes(Some(XComponentSize::Large), false, false), "x-menuitem computedsize-large pressed");
}

#[test]
fn default_trigger_effect_blinks() {
    assert_eq!(XMenuItemTriggerEffect::default(), XMenuItemTriggerEffect::Blink);
    assert!(press(PointerKind::Mouse, 0).is_in_limits());
    assert!(!PointerPress { client_x: i64::MIN, ..press(PointerKind::Mouse, 0) }.is_in_limits());
}
