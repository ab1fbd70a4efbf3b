//! Placement of a floating panel beside its trigger.
//!
//! Coordinates are whole viewport pixels. The panel goes on the preferred
//! side when there is room for it there; otherwise other sides are tried in
//! a fixed, direction-aware order, and after four failed attempts the
//! trigger's own rectangle is returned.
use vstd::prelude::*;

use crate::xtooltip::XTooltipAlign;

verus! {

/// Least gap kept between a panel and the viewport's edges.
pub const WINDOW_WHITESPACE: i64 = 8;

/// Gap between the trigger and the panel.
pub const SPACE_BETWEEN: i64 = 8;

/// Number of sides tried before the trigger's rectangle is returned.
pub const ATTEMPT_BUDGET: u8 = 4;

/// Largest magnitude of a coordinate or extent taken as input; it keeps
/// every sum of a few of them inside `i64`.
pub const COORD_LIMIT: i64 = 1_000_000_000;

pub open spec fn coord_in_limits(v: int) -> bool {
    -COORD_LIMIT <= v <= COORD_LIMIT
}

/// An axis-aligned rectangle in viewport pixels.
#[derive(PartialEq, Eq, Structural, Clone, Copy, Debug)]
pub struct Rect {
    pub x: i64,
    pub y: i64,
    pub width: i64,
    pub height: i64,
}

/// Width and height of a panel or of the viewport.
#[derive(PartialEq, Eq, Structural, Clone, Copy, Debug)]
pub struct Size {
    pub width: i64,
    pub height: i64,
}

impl Rect {
    pub open spec fn left(self) -> int {
        self.x as int
    }

    pub open spec fn top(self) -> int {
        self.y as int
    }

    pub open spec fn right(self) -> int {
        self.x + self.width
    }

    pub open spec fn bottom(self) -> int {
        self.y + self.height
    }

    pub open spec fn in_limits(self) -> bool {
        &&& coord_in_limits(self.x as int)
        &&& coord_in_limits(self.y as int)
        &&& coord_in_limits(self.width as int)
        &&& coord_in_limits(self.height as int)
    }

    /// Lies within a viewport of the given size, with non-negative extents.
    pub open spec fn inside(self, viewport: Size) -> bool {
        &&& 0 <= self.left() <= self.right() <= viewport.width
        &&& 0 <= self.top() <= self.bottom() <= viewport.height
    }

    /// The two rectangles share no interior point.
    pub open spec fn disjoint(self, other: Rect) -> bool {
        ||| self.right() <= other.left()
        ||| other.right() <= self.left()
        ||| self.bottom() <= other.top()
        ||| other.bottom() <= self.top()
    }

    pub fn new(x: i64, y: i64, width: i64, height: i64) -> (r: Rect)
        ensures
            r == (Rect { x, y, width, height }),
    {
        Rect { x, y, width, height }
    }

    pub fn is_in_limits(&self) -> (r: bool)
        ensures
            r == self.in_limits(),
    {
        -COORD_LIMIT <= self.x && self.x <= COORD_LIMIT && -COORD_LIMIT <= self.y && self.y
            <= COORD_LIMIT && -COORD_LIMIT <= self.width && self.width <= COORD_LIMIT
            && -COORD_LIMIT <= self.height && self.height <= COORD_LIMIT
    }
}

impl Size {
    pub open spec fn in_limits(self) -> bool {
        coord_in_limits(self.width as int) && coord_in_limits(self.height as int)
    }

    pub fn new(width: i64, height: i64) -> (r: Size)
        ensures
            r == (Size { width, height }),
    {
        Size { width, height }
    }

    pub fn is_in_limits(&self) -> (r: bool)
        ensures
            r == self.in_limits(),
    {
        -COORD_LIMIT <= self.width && self.width <= COORD_LIMIT && -COORD_LIMIT <= self.height
            && self.height <= COORD_LIMIT
    }
}

/// Coordinate of the panel on the axis along the trigger's side: centred on
/// the trigger (rounding towards lower coordinates), moved to the
/// whitespace margin when that would start too close to the near edge, and
/// pulled back to the margin from the far edge when it would come closer to
/// it than the margin.
pub open spec fn cross_coord(start: int, extent: int, panel: int, window: int) -> int {
    let centred = start - (panel - extent) / 2;
    if centred + panel + WINDOW_WHITESPACE > window {
        window - panel - WINDOW_WHITESPACE
    } else if centred < WINDOW_WHITESPACE {
        WINDOW_WHITESPACE as int
    } else {
        centred
    }
}

/// The panel does not fit on this side of the trigger within the viewport.
pub open spec fn overflows(trigger: Rect, panel: Size, viewport: Size, side: XTooltipAlign) -> bool {
    match side {
        XTooltipAlign::Bottom => trigger.bottom() + panel.height + SPACE_BETWEEN + WINDOW_WHITESPACE
            > viewport.height,
        XTooltipAlign::Top => trigger.top() - panel.height - SPACE_BETWEEN - WINDOW_WHITESPACE < 0,
        XTooltipAlign::Left => trigger.left() - panel.width - SPACE_BETWEEN - WINDOW_WHITESPACE < 0,
        XTooltipAlign::Right => trigger.right() + panel.width + SPACE_BETWEEN + WINDOW_WHITESPACE
            > viewport.width,
    }
}

/// Left coordinate of the panel placed on `side`.
pub open spec fn placed_x(trigger: Rect, panel: Size, viewport: Size, side: XTooltipAlign) -> int {
    match side {
        XTooltipAlign::Bottom | XTooltipAlign::Top => cross_coord(
            trigger.left(),
            trigger.width as int,
            panel.width as int,
            viewport.width as int,
        ),
        XTooltipAlign::Left => trigger.left() - SPACE_BETWEEN - panel.width,
        XTooltipAlign::Right => trigger.right() + SPACE_BETWEEN,
    }
}

/// Top coordinate of the panel placed on `side`.
pub open spec fn placed_y(trigger: Rect, panel: Size, viewport: Size, side: XTooltipAlign) -> int {
    match side {
        XTooltipAlign::Left | XTooltipAlign::Right => cross_coord(
            trigger.top(),
            trigger.height as int,
            panel.height as int,
            viewport.height as int,
        ),
        XTooltipAlign::Bottom => trigger.bottom() + SPACE_BETWEEN,
        XTooltipAlign::Top => trigger.top() - SPACE_BETWEEN - panel.height,
    }
}

/// The side tried after `side` failed, given the side tried before it.
/// Each side falls back to its opposite, unless the opposite is where the
/// previous attempt came from; then it turns to the other axis.
pub open spec fn fallback(side: XTooltipAlign, from: Option<XTooltipAlign>) -> XTooltipAlign {
    match side {
        XTooltipAlign::Bottom => if from == Some(XTooltipAlign::Top) {
            XTooltipAlign::Right
        } else {
            XTooltipAlign::Top
        },
        XTooltipAlign::Top => if from == Some(XTooltipAlign::Bottom) {
            XTooltipAlign::Right
        } else {
            XTooltipAlign::Bottom
        },
        XTooltipAlign::Left => if from == Some(XTooltipAlign::Right) {
            XTooltipAlign::Bottom
        } else {
            XTooltipAlign::Right
        },
        XTooltipAlign::Right => if from == Some(XTooltipAlign::Left) {
            XTooltipAlign::Bottom
        } else {
            XTooltipAlign::Left
        },
    }
}

/// The side the panel ends up on when `side` is attempt number `tries`
/// (counted from zero) and `from` was the attempt before; `None` once the
/// budget is spent.
pub open spec fn chosen_side(
    trigger: Rect,
    panel: Size,
    viewport: Size,
    side: XTooltipAlign,
    from: Option<XTooltipAlign>,
    tries: int,
) -> Option<XTooltipAlign>
    decreases ATTEMPT_BUDGET - tries,
{
    if tries >= ATTEMPT_BUDGET {
        None
    } else if !overflows(trigger, panel, viewport, side) {
        Some(side)
    } else {
        chosen_side(trigger, panel, viewport, fallback(side, from), Some(side), tries + 1)
    }
}

/// The side chosen for a fresh request with the given preferred side.
pub open spec fn placement_side(
    trigger: Rect,
    panel: Size,
    viewport: Size,
    preferred: XTooltipAlign,
) -> Option<XTooltipAlign> {
    chosen_side(trigger, panel, viewport, preferred, None, 0)
}

/// `r` is the outcome for the given choice: the panel on the chosen side, or
/// the trigger itself when no side was chosen.
pub open spec fn is_placement(
    r: Rect,
    trigger: Rect,
    panel: Size,
    viewport: Size,
    choice: Option<XTooltipAlign>,
) -> bool {
    match choice {
        None => r == trigger,
        Some(side) => {
            &&& r.x == placed_x(trigger, panel, viewport, side)
            &&& r.y == placed_y(trigger, panel, viewport, side)
            &&& r.width == panel.width
            &&& r.height == panel.height
        },
    }
}

/// The four sides in the order a request preferring `preferred` tries them.
pub open spec fn attempt_order(preferred: XTooltipAlign) -> Seq<XTooltipAlign> {
    let second = fallback(preferred, None);
    let third = fallback(second, Some(preferred));
    let fourth = fallback(third, Some(second));
    seq![preferred, second, third, fourth]
}

pub(crate) fn half_down(v: i64) -> (r: i64)
    requires
        -4 * COORD_LIMIT <= v <= 4 * COORD_LIMIT,
    ensures
        r == v / 2,
{
    if v >= 0 {
        v / 2
    } else {
        let r = -((1 - v) / 2);
        assert(r == v / 2) by (nonlinear_arith)
            requires
                v < 0,
                r == -((1 - v) / 2),
        ;
        r
    }
}

fn cross_coordinate(start: i64, extent: i64, panel: i64, window: i64) -> (r: i64)
    requires
        coord_in_limits(start as int),
        coord_in_limits(extent as int),
        coord_in_limits(panel as int),
        coord_in_limits(window as int),
    ensures
        r == cross_coord(start as int, extent as int, panel as int, window as int),
{
    let centred = start - half_down(panel - extent);
    if centred + panel + WINDOW_WHITESPACE > window {
        window - panel - WINDOW_WHITESPACE
    } else if centred < WINDOW_WHITESPACE {
        WINDOW_WHITESPACE
    } else {
        centred
    }
}

fn side_overflows(trigger: &Rect, panel: &Size, viewport: &Size, side: XTooltipAlign) -> (r: bool)
    requires
        trigger.in_limits(),
        panel.in_limits(),
        viewport.in_limits(),
    ensures
        r == overflows(*trigger, *panel, *viewport, side),
{
    match side {
        XTooltipAlign::Bottom => trigger.y + trigger.height + panel.height + SPACE_BETWEEN
            + WINDOW_WHITESPACE > viewport.height,
        XTooltipAlign::Top => trigger.y - panel.height - SPACE_BETWEEN - WINDOW_WHITESPACE < 0,
        XTooltipAlign::Left => trigger.x - panel.width - SPACE_BETWEEN - WINDOW_WHITESPACE < 0,
        XTooltipAlign::Right => trigger.x + trigger.width + panel.width + SPACE_BETWEEN
            + WINDOW_WHITESPACE > viewport.width,
    }
}

/// The side to try after `side`, given the attempt before it.
pub fn next_side(side: XTooltipAlign, from: Option<XTooltipAlign>) -> (r: XTooltipAlign)
    ensures
        r == fallback(side, from),
{
    match side {
        XTooltipAlign::Bottom => match from {
            Some(XTooltipAlign::Top) => XTooltipAlign::Right,
            _ => XTooltipAlign::Top,
        },
        XTooltipAlign::Top => match from {
            Some(XTooltipAlign::Bottom) => XTooltipAlign::Right,
            _ => XTooltipAlign::Bottom,
        },
        XTooltipAlign::Left => match from {
            Some(XTooltipAlign::Right) => XTooltipAlign::Bottom,
            _ => XTooltipAlign::Right,
        },
        XTooltipAlign::Right => match from {
            Some(XTooltipAlign::Left) => XTooltipAlign::Bottom,
            _ => XTooltipAlign::Left,
        },
    }
}

/// Places the panel for attempt number `try_count` on side `align`, where
/// `from` is the side of the attempt before; see [`chosen_side`].
pub fn calculate_position(
    target_rect: Rect,
    tool: Size,
    window: Size,
    align: XTooltipAlign,
    from: Option<XTooltipAlign>,
    try_count: u8,
) -> (r: Rect)
    requires
        target_rect.in_limits(),
        tool.in_limits(),
        window.in_limits(),
    ensures
        is_placement(
            r,
            target_rect,
            tool,
            window,
            chosen_side(target_rect, tool, window, align, from, try_count as int),
        ),
    decreases ATTEMPT_BUDGET - try_count,
{
    if try_count >= ATTEMPT_BUDGET {
        return target_rect;
    }
    if side_overflows(&target_rect, &tool, &window, align) {
        let next = next_side(align, from);
        return calculate_position(target_rect, tool, window, next, Some(align), try_count + 1);
    }
    match align {
        XTooltipAlign::Bottom => Rect {
            x: cross_coordinate(target_rect.x, target_rect.width, tool.width, window.width),
            y: target_rect.y + target_rect.height + SPACE_BETWEEN,
            width: tool.width,
            height: tool.height,
        },
        XTooltipAlign::Top => Rect {
            x: cross_coordinate(target_rect.x, target_rect.width, tool.width, window.width),
            y: target_rect.y - SPACE_BETWEEN - tool.height,
            width: tool.width,
            height: tool.height,
        },
        XTooltipAlign::Left => Rect {
            x: target_rect.x - SPACE_BETWEEN - tool.width,
            y: cross_coordinate(target_rect.y, target_rect.height, tool.height, window.height),
            width: tool.width,
            height: tool.height,
        },
        XTooltipAlign::Right => Rect {
            x: target_rect.x + target_rect.width + SPACE_BETWEEN,
            y: cross_coordinate(target_rect.y, target_rect.height, tool.height, window.height),
            width: tool.width,
            height: tool.height,
        },
    }
}

/// Places a panel of size `panel` beside `trigger` inside a viewport of size
/// `viewport`, starting with the `preferred` side.
pub fn compute(trigger: Rect, panel: Size, viewport: Size, preferred: XTooltipAlign) -> (r: Rect)
    requires
        trigger.in_limits(),
        panel.in_limits(),
        viewport.in_limits(),
    ensures
        is_placement(r, trigger, panel, viewport, placement_side(trigger, panel, viewport, preferred)),
{
    calculate_position(trigger, panel, viewport, preferred, None, 0)
}

/// The panel's edge away from the trigger, on the axis that crosses `side`,
/// lies within the viewport.
pub open spec fn main_axis_inside(r: Rect, viewport: Size, side: XTooltipAlign) -> bool {
    match side {
        XTooltipAlign::Bottom => r.bottom() <= viewport.height,
        XTooltipAlign::Top => r.top() >= 0,
        XTooltipAlign::Left => r.left() >= 0,
        XTooltipAlign::Right => r.right() <= viewport.width,
    }
}

/// The panel and a margin on each side fit across the viewport on the axis
/// along `side`.
pub open spec fn fits_across(panel: Size, viewport: Size, side: XTooltipAlign) -> bool {
    match side {
        XTooltipAlign::Bottom | XTooltipAlign::Top => panel.width + 2 * WINDOW_WHITESPACE
            <= viewport.width,
        XTooltipAlign::Left | XTooltipAlign::Right => panel.height + 2 * WINDOW_WHITESPACE
            <= viewport.height,
    }
}

/// Keeps the whitespace margin from both viewport edges on the axis along `side`.
pub open spec fn cross_axis_inside(r: Rect, viewport: Size, side: XTooltipAlign) -> bool {
    match side {
        XTooltipAlign::Bottom | XTooltipAlign::Top => WINDOW_WHITESPACE <= r.left() && r.right()
            <= viewport.width - WINDOW_WHITESPACE,
        XTooltipAlign::Left | XTooltipAlign::Right => WINDOW_WHITESPACE <= r.top() && r.bottom()
            <= viewport.height - WINDOW_WHITESPACE,
    }
}

/// When the preferred side has room, the panel is placed on it: its far
/// edge does not pass the viewport's edge, it does not overlap the trigger,
/// and when the panel fits across the viewport with a margin on each side it
/// keeps that margin from both edges on the
/// other axis as well.
pub proof fn lemma_room_on_preferred_side(
    trigger: Rect,
    panel: Size,
    viewport: Size,
    preferred: XTooltipAlign,
    r: Rect,
)
    requires
        !overflows(trigger, panel, viewport, preferred),
        is_placement(r, trigger, panel, viewport, placement_side(trigger, panel, viewport, preferred)),
    ensures
        placement_side(trigger, panel, viewport, preferred) == Some(preferred),
        main_axis_inside(r, viewport, preferred),
        r.disjoint(trigger),
        fits_across(panel, viewport, preferred) ==> cross_axis_inside(r, viewport, preferred),
{
    assert(placement_side(trigger, panel, viewport, preferred) == Some(preferred));
}

/// Whatever the side attempted, when every side overflows no side is chosen.
proof fn lemma_all_sides_overflow(
    trigger: Rect,
    panel: Size,
    viewport: Size,
    side: XTooltipAlign,
    from: Option<XTooltipAlign>,
    tries: int,
)
    requires
        0 <= tries,
        forall|s: XTooltipAlign| overflows(trigger, panel, viewport, s),
    ensures
        chosen_side(trigger, panel, viewport, side, from, tries) is None,
    decreases ATTEMPT_BUDGET - tries,
{
    if tries < ATTEMPT_BUDGET {
        assert(overflows(trigger, panel, viewport, side));
        lemma_all_sides_overflow(trigger, panel, viewport, fallback(side, from), Some(side), tries + 1);
    }
}

/// With the trigger inside a viewport too small for the panel and its gaps
/// on both axes, every preferred side spends the attempt budget and the
/// outcome is exactly the trigger's rectangle.
pub proof fn lemma_budget_exhausted_returns_trigger(
    trigger: Rect,
    panel: Size,
    viewport: Size,
    preferred: XTooltipAlign,
    r: Rect,
)
    requires
        trigger.inside(viewport),
        viewport.width < panel.width + SPACE_BETWEEN + WINDOW_WHITESPACE,
        viewport.height < panel.height + SPACE_BETWEEN + WINDOW_WHITESPACE,
        is_placement(r, trigger, panel, viewport, placement_side(trigger, panel, viewport, preferred)),
    ensures
        placement_side(trigger, panel, viewport, preferred) is None,
        r == trigger,
{
    assert forall|s: XTooltipAlign| overflows(trigger, panel, viewport, s) by {
        match s {
            XTooltipAlign::Bottom => {},
            XTooltipAlign::Top => {},
            XTooltipAlign::Left => {},
            XTooltipAlign::Right => {},
        }
    }
    lemma_all_sides_overflow(trigger, panel, viewport, preferred, None, 0);
}

/// Placement is a function of its arguments: two results for the same
/// trigger, panel, viewport and preferred side are the same rectangle.
pub proof fn lemma_placement_deterministic(
    trigger: Rect,
    panel: Size,
    viewport: Size,
    preferred: XTooltipAlign,
    r1: Rect,
    r2: Rect,
)
    requires
        is_placement(r1, trigger, panel, viewport, placement_side(trigger, panel, viewport, preferred)),
        is_placement(r2, trigger, panel, viewport, placement_side(trigger, panel, viewport, preferred)),
    ensures
        r1 == r2,
{
}

/// The attempts never go back to a side already tried: the four attempts
/// are four different sides, so in particular no attempt returns to the one
/// just before the last.
pub proof fn lemma_attempt_order_distinct(preferred: XTooltipAlign)
    ensures
        attempt_order(preferred).len() == ATTEMPT_BUDGET,
        forall|i: int, j: int|
            0 <= i < j < ATTEMPT_BUDGET ==> attempt_order(preferred)[i] != attempt_order(preferred)[j],
{
}

/// The sides are tried in attempt order and the first one with room wins;
/// when none has room the trigger's rectangle is returned.
pub proof fn lemma_first_side_with_room(
    trigger: Rect,
    panel: Size,
    viewport: Size,
    preferred: XTooltipAlign,
)
    ensures
        forall|k: int|
            0 <= k < ATTEMPT_BUDGET ==> (placement_side(trigger, panel, viewport, preferred) == Some(
                attempt_order(preferred)[k],
            ) <==> !overflows(trigger, panel, viewport, attempt_order(preferred)[k]) && forall|
                j: int,
            | 0 <= j < k ==> overflows(trigger, panel, viewport, attempt_order(preferred)[j])),
        placement_side(trigger, panel, viewport, preferred) is None <==> forall|k: int|
            0 <= k < ATTEMPT_BUDGET ==> overflows(trigger, panel, viewport, attempt_order(preferred)[k]),
{
    lemma_attempt_order_distinct(preferred);
    reveal_with_fuel(chosen_side, 5);
}

} // verus!
