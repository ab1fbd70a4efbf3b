use yewxel::placement::{calculate_position, compute, next_side, Rect, Size};
use yewxel::xtooltip::XTooltipAlign;
use yewxel::xtooltip::XTooltipAlign::{Bottom, Left, Right, Top};

fn rect(x: i64, y: i64, width: i64, height: i64) -> Rect {
    Rect::new(x, y, width, height)
}

#[test]
fn bottom_placement_below_trigger() {
    let r = compute(rect(100, 10, 50, 20), Size::new(80, 30), Size::new(800, 600), XTooltipAlign::Bottom);
    assert_eq!(r.y, 38);
    assert!(r.x >= 8 && r.x <= 800 - 80 - 8);
    assert_eq!(r, rect(85, 38, 80, 30));
}

#[test]
fn top_overflow_falls_back_to_bottom() {
    let trigger = rect(100, 2, 50, 20);
    let r = compute(trigger, Size::new(80, 40), Size::new(800, 600), XTooltipAlign::Top);
    assert!(r.y >= trigger.y + trigger.height);
    assert_eq!(r, rect(85, 30, 80, 40));
}

#[test]
fn room_on_preferred_side_keeps_it() {
    let trigger = rect(300, 200, 40, 20);
    let panel = Size::new(100, 30);
    let view = Size::new(800, 600);
    let left = compute(trigger, panel, view, XTooltipAlign::Left);
    assert_eq!(left, rect(192, 195, 100, 30));
    assert!(left.x >= 0);
    assert!(left.x + left.width <= trigger.x);
    let right = compute(trigger, panel, view, XTooltipAlign::Right);
    assert_eq!(right, rect(348, 195, 100, 30));
    assert!(right.x + right.width <= 800);
    let top = compute(trigger, panel, view, XTooltipAlign::Top);
    assert_eq!(top, rect(270, 162, 100, 30));
    assert!(top.y + top.height <= trigger.y);
}

#[test]
fn cross_axis_kept_off_the_edges() {
    let panel = Size::new(100, 30);
    let view = Size::new(800, 600);
    let near_left = compute(rect(0, 100, 20, 20), panel, view, XTooltipAlign::Bottom);
    assert_eq!(near_left, rect(8, 128, 100, 30));
    let near_right = compute(rect(780, 100, 20, 20), panel, view, XTooltipAlign::Bottom);
    assert_eq!(near_right, rect(692, 128, 100, 30));
    assert!(near_right.x + near_right.width <= 800 - 8);
}

#[test]
fn narrow_viewport_keeps_both_margins() {
    let r = compute(rect(40, 10, 20, 20), Size::new(80, 30), Size::new(100, 600), XTooltipAlign::Bottom);
    assert_eq!(r, rect(10, 38, 80, 30));
    let pushed = compute(rect(70, 10, 20, 20), Size::new(80, 30), Size::new(100, 600), XTooltipAlign::Bottom);
    assert_eq!(pushed.x, 12);
    assert!(pushed.x >= 8 && pushed.x + pushed.width <= 100 - 8);
}

#[test]
fn centring_rounds_towards_lower_coordinates() {
    let view = Size::new(800, 600);
    let wider_panel = compute(rect(100, 10, 51, 20), Size::new(80, 30), view, XTooltipAlign::Bottom);
    assert_eq!(wider_panel.x, 86);
    let narrower_panel = compute(rect(100, 10, 51, 20), Size::new(20, 30), view, XTooltipAlign::Bottom);
    assert_eq!(narrower_panel.x, 116);
}

#[test]
fn no_room_anywhere_returns_trigger() {
    let trigger = rect(10, 10, 20, 20);
    for side in [XTooltipAlign::Top, XTooltipAlign::Bottom, XTooltipAlign::Left, XTooltipAlign::Right] {
        let r = compute(trigger, Size::new(80, 80), Size::new(50, 50), side);
        assert_eq!(r, trigger);
    }
}

#[test]
fn placement_is_deterministic() {
    let a = compute(rect(100, 2, 50, 20), Size::new(80, 40), Size::new(800, 600), XTooltipAlign::Top);
    let b = compute(rect(100, 2, 50, 20), Size::new(80, 40), Size::new(800, 600), XTooltipAlign::Top);
    assert_eq!(a, b);
}

#[test]
fn fallback_turns_to_other_axis() {
    let trigger = rect(100, 40, 50, 20);
    let panel = Size::new(80, 60);
    let r = compute(trigger, panel, Size::new(800, 100), XTooltipAlign::Bottom);
    assert_eq!(r, rect(158, 20, 80, 60));
    let l = compute(trigger, panel, Size::new(200, 100), XTooltipAlign::Bottom);
    assert_eq!(l, rect(12, 20, 80, 60));
}

#[test]
fn left_overflow_falls_back_to_right() {
    let r = compute(rect(10, 100, 40, 20), Size::new(100, 30), Size::new(800, 600), XTooltipAlign::Left);
    assert_eq!(r, rect(58, 95, 100, 30));
}

fn attempts(preferred: XTooltipAlign) -> Vec<XTooltipAlign> {
    let mut sides = vec![preferred];
    let mut from = None;
    let mut side = preferred;
    for _ in 0..3 {
        let next = next_side(side, from);
        from = Some(side);
        side = next;
        sides.push(side);
    }
    sides
}

#[test]
fn attempts_never_revisit_a_side() {
    assert_eq!(attempts(Bottom), vec![Bottom, Top, Right, Left]);
    assert_eq!(attempts(Top), vec![Top, Bottom, Right, Left]);
    assert_eq!(attempts(Left), vec![Left, Right, Bottom, Top]);
    assert_eq!(attempts(Right), vec![Right, Left, Bottom, Top]);
    for side in [Bottom, Top, Left, Right] {
        let order = attempts(side);
        for i in 0..order.len() {
            for j in (i + 1)..order.len() {
                assert_ne!(order[i], order[j]);
            }
        }
    }
}

#[test]
fn spent_budget_returns_trigger() {
    let trigger = rect(100, 10, 50, 20);
    let r = calculate_position(trigger, Size::new(80, 30), Size::new(800, 600), XTooltipAlign::Bottom, None, 4);
    assert_eq!(r, trigger);
}

#[test]
fn limits_are_checked() {
    assert!(rect(1, 2, 3, 4).is_in_limits());
    assert!(!rect(i64::MAX, 0, 0, 0).is_in_limits());
    assert!(!Size::new(0, i64::MIN).is_in_limits());
}
