use yewxel::placement::{compute, Rect, Size};
use yewxel::xtooltip::{
    fades_opacity, tooltip_classes, tooltip_user_style, Measurement, TooltipConfig, TooltipPhase,
    XTooltip, XTooltipAlign, XTooltipMessage, XTooltipType,
};

fn config(open: Option<bool>, fades: bool) -> TooltipConfig {
    TooltipConfig { open, align: XTooltipAlign::Bottom, open_fades: fades, close_fades: fades }
}

fn measurement() -> Measurement {
    Measurement {
        trigger: Rect::new(100, 10, 50, 20),
        panel: Size::new(80, 30),
        viewport: Size::new(800, 600),
    }
}

#[test]
fn hover_opens_measures_and_places() {
    let cfg = config(None, true);
    let mut t = XTooltip::new();
    assert_eq!(t.phase(), TooltipPhase::Closed);
    let e = t.update(&cfg, XTooltipMessage::MouseEnter);
    assert!(e.notify_open && e.start_open_animation && e.measure);
    assert!(!e.notify_close && !e.start_close_animation);
    assert_eq!(t.phase(), TooltipPhase::Opening);
    t.update(&cfg, XTooltipMessage::Measured(measurement()));
    assert_eq!(t.phase(), TooltipPhase::Open);
    assert_eq!(t.position, Some(Rect::new(85, 38, 80, 30)));
    assert_eq!(t.shown_offsets(&cfg), Some((38, 85)));
}

#[test]
fn leave_fades_then_closes() {
    let cfg = config(None, true);
    let mut t = XTooltip::new();
    t.update(&cfg, XTooltipMessage::MouseEnter);
    t.update(&cfg, XTooltipMessage::Measured(measurement()));
    let e = t.update(&cfg, XTooltipMessage::MouseLeave);
    assert!(e.notify_close && e.start_close_animation);
    assert_eq!(t.phase(), TooltipPhase::Closing);
    assert!(t.is_shown(&cfg));
    t.update(&cfg, XTooltipMessage::CloseAnimationEnd);
    assert_eq!(t.phase(), TooltipPhase::Closed);
    assert!(!t.is_shown(&cfg));
    assert_eq!(t.shown_offsets(&cfg), None);
    // a stale completion changes nothing
    t.update(&cfg, XTooltipMessage::CloseAnimationEnd);
    assert_eq!(t.phase(), TooltipPhase::Closed);
    // the position is kept for the next opening
    let e = t.update(&cfg, XTooltipMessage::MouseEnter);
    assert!(e.notify_open && !e.measure);
    assert_eq!(t.phase(), TooltipPhase::Open);
}

#[test]
fn leave_without_fade_closes_at_once() {
    let cfg = config(None, false);
    let mut t = XTooltip::new();
    let e = t.update(&cfg, XTooltipMessage::MouseEnter);
    assert!(e.notify_open && !e.start_open_animation);
    let e = t.update(&cfg, XTooltipMessage::MouseLeave);
    assert!(e.notify_close && !e.start_close_animation);
    assert_eq!(t.phase(), TooltipPhase::Closed);
    let e = t.update(&cfg, XTooltipMessage::MouseLeave);
    assert!(!e.notify_close);
}

#[test]
fn hover_during_closing_keeps_open_and_ignores_late_completion() {
    let cfg = config(None, true);
    let mut t = XTooltip::new();
    t.update(&cfg, XTooltipMessage::MouseEnter);
    t.update(&cfg, XTooltipMessage::Measured(measurement()));
    t.update(&cfg, XTooltipMessage::MouseLeave);
    let e = t.update(&cfg, XTooltipMessage::MouseEnter);
    assert!(!e.notify_open && !e.start_open_animation && !e.measure);
    assert_eq!(t.phase(), TooltipPhase::Open);
    t.update(&cfg, XTooltipMessage::CloseAnimationEnd);
    assert_eq!(t.phase(), TooltipPhase::Open);
}

#[test]
fn moved_trigger_is_measured_on_next_opening() {
    let cfg = config(None, false);
    let mut t = XTooltip::new();
    t.update(&cfg, XTooltipMessage::MouseEnter);
    t.update(&cfg, XTooltipMessage::Measured(measurement()));
    t.update(&cfg, XTooltipMessage::TriggerChanged);
    assert_eq!(t.phase(), TooltipPhase::Open);
    t.update(&cfg, XTooltipMessage::MouseLeave);
    let e = t.update(&cfg, XTooltipMessage::MouseEnter);
    assert!(e.measure);
    assert_eq!(t.phase(), TooltipPhase::Opening);
    let moved = Measurement { trigger: Rect::new(100, 2, 50, 20), panel: Size::new(80, 40), ..measurement() };
    t.update(&cfg, XTooltipMessage::Measured(moved));
    let expected = compute(moved.trigger, moved.panel, moved.viewport, XTooltipAlign::Bottom);
    assert_eq!(t.position, Some(expected));
    assert_eq!(expected, Rect::new(85, 30, 80, 40));
}

#[test]
fn measurement_while_closed_is_ignored() {
    let cfg = config(None, true);
    let mut t = XTooltip::new();
    t.update(&cfg, XTooltipMessage::Measured(measurement()));
    assert_eq!(t.position, None);
}

#[test]
fn owner_managed_flag_is_mirrored() {
    let mut t = XTooltip::new();
    let closed = config(Some(false), true);
    let e = t.update(&closed, XTooltipMessage::MouseEnter);
    assert!(e.notify_open && !e.start_open_animation && !e.measure);
    assert!(!t.is_shown(&closed));
    let open = config(Some(true), true);
    let e = t.update(&open, XTooltipMessage::MouseLeave);
    assert!(e.notify_close && !e.start_close_animation);
    assert!(t.is_shown(&open));
    assert_eq!(t.shown_offsets(&open), None);
}

#[test]
fn only_opacity_transitions_fade() {
    assert!(fades_opacity("opacity"));
    assert!(!fades_opacity("property"));
    assert!(!fades_opacity("opacit"));
}

#[test]
fn tooltip_class_list() {
    let c = tooltip_classes(&Some(String::from("  extra ")), true, XTooltipType::Error, XTooltipAlign::Left);
    assert_eq!(c, "x-tooltipextra disabled type-error align-left");
    let d = tooltip_classes(&None, false, XTooltipType::default(), XTooltipAlign::default());
    assert_eq!(d, "x-tooltip type-hint align-bottom");
}

#[test]
fn tooltip_style_is_closed_with_semicolon() {
    assert_eq!(tooltip_user_style(&Some(String::from("color: red"))), "color: red;");
    assert_eq!(tooltip_user_style(&Some(String::from("color: red; "))), "color: red; ");
    assert_eq!(tooltip_user_style(&None), "");
}

#[test]
fn negative_position_written_as_zero() {
    let cfg = config(None, false);
    let mut t = XTooltip::new();
    t.update(&cfg, XTooltipMessage::MouseEnter);
    t.update(
        &cfg,
        XTooltipMessage::Measured(Measurement {
            trigger: Rect::new(10, 10, 20, 20),
            panel: Size::new(80, 80),
            viewport: Size::new(50, 50),
        }),
    );
    assert_eq!(t.position, Some(Rect::new(10, 10, 20, 20)));
    let mut u = XTooltip::new();
    u.update(&cfg, XTooltipMessage::MouseEnter);
    u.update(
        &cfg,
        XTooltipMessage::Measured(Measurement {
            trigger: Rect::new(0, 0, 10, 10),
            panel: Size::new(100, 20),
            viewport: Size::new(60, 600),
        }),
    );
    assert_eq!(u.position, Some(Rect::new(-48, 18, 100, 20)));
    assert_eq!(u.shown_offsets(&cfg), Some((18, 0)));
}

#[test]
fn side_and_kind_names() {
    assert_eq!(XTooltipAlign::Top.to_string(), "top");
    assert_eq!(XTooltipAlign::Right.to_string(), "right");
    assert_eq!(XTooltipType::Error.to_string(), "error");
}
