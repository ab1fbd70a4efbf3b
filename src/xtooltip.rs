//! The hover-driven tooltip controller.
//!
//! The controller owns whether the tooltip is open and where it was placed.
//! It takes one message at a time and answers with the effects the widget
//! has to carry out: notify its owner, start a fade, measure the trigger.
//! Completions of animations come back as messages and may be stale; a
//! stale one changes nothing.
use vstd::prelude::*;

use crate::placement::{compute, is_placement, placement_side, Rect, Size};
use crate::text::{append_if, same_text, push_user_class, trim_text, trimmed, user_class, word_if};

verus! {

/// Kind of a tooltip, which selects its styling.
#[derive(PartialEq, Eq, Structural, Clone, Copy, Debug)]
pub enum XTooltipType {
    Hint,
    Error,
}

impl Default for XTooltipType {
    fn default() -> (r: Self)
        ensures
            r == XTooltipType::Hint,
    {
        XTooltipType::Hint
    }
}

impl XTooltipType {
    /// The class-name word of this kind.
    pub open spec fn name(self) -> Seq<char> {
        match self {
            XTooltipType::Hint => "hint"@,
            XTooltipType::Error => "error"@,
        }
    }

    pub fn to_string(&self) -> (r: String)
        ensures
            r@ == self.name(),
    {
        match self {
            XTooltipType::Hint => String::from_str("hint"),
            XTooltipType::Error => String::from_str("error"),
        }
    }
}

/// Side of the trigger on which a tooltip is shown.
#[derive(PartialEq, Eq, Structural, Clone, Copy, Debug)]
pub enum XTooltipAlign {
    Left,
    Right,
    Top,
    Bottom,
}

impl Default for XTooltipAlign {
    fn default() -> (r: Self)
        ensures
            r == XTooltipAlign::Bottom,
    {
        XTooltipAlign::Bottom
    }
}

impl XTooltipAlign {
    /// The class-name word of this side.
    pub open spec fn name(self) -> Seq<char> {
        match self {
            XTooltipAlign::Left => "left"@,
            XTooltipAlign::Right => "right"@,
            XTooltipAlign::Top => "top"@,
            XTooltipAlign::Bottom => "bottom"@,
        }
    }

    pub fn to_string(&self) -> (r: String)
        ensures
            r@ == self.name(),
    {
        match self {
            XTooltipAlign::Left => String::from_str("left"),
            XTooltipAlign::Right => String::from_str("right"),
            XTooltipAlign::Top => String::from_str("top"),
            XTooltipAlign::Bottom => String::from_str("bottom"),
        }
    }
}

/// What was read from the page when the tooltip first opened.
#[derive(PartialEq, Eq, Structural, Clone, Copy, Debug)]
pub struct Measurement {
    pub trigger: Rect,
    pub panel: Size,
    pub viewport: Size,
}

impl Measurement {
    pub open spec fn in_limits(self) -> bool {
        self.trigger.in_limits() && self.panel.in_limits() && self.viewport.in_limits()
    }

    pub fn is_in_limits(&self) -> (r: bool)
        ensures
            r == self.in_limits(),
    {
        self.trigger.is_in_limits() && self.panel.is_in_limits() && self.viewport.is_in_limits()
    }
}

/// Messages the tooltip controller handles.
#[derive(PartialEq, Eq, Structural, Clone, Copy, Debug)]
pub enum XTooltipMessage {
    /// The pointer entered the trigger.
    MouseEnter,
    /// The pointer left the trigger.
    MouseLeave,
    /// The trigger and the panel were measured, as asked for.
    Measured(Measurement),
    /// The closing fade finished.
    CloseAnimationEnd,
    /// The trigger moved or changed size.
    TriggerChanged,
}

/// The settings of a tooltip that the controller consults.
#[derive(PartialEq, Eq, Structural, Clone, Copy, Debug)]
pub struct TooltipConfig {
    /// Open state managed by the owner; when set the tooltip shows exactly this.
    pub open: Option<bool>,
    /// Preferred side.
    pub align: XTooltipAlign,
    /// Opening is animated with an opacity fade.
    pub open_fades: bool,
    /// Closing is animated with an opacity fade.
    pub close_fades: bool,
}

/// What the widget has to do after a message.
#[derive(PartialEq, Eq, Structural, Clone, Copy, Debug)]
pub struct TooltipEffects {
    /// Tell the owner that the tooltip asks to open.
    pub notify_open: bool,
    /// Tell the owner that the tooltip asks to close.
    pub notify_close: bool,
    /// Start the opening fade.
    pub start_open_animation: bool,
    /// Start the closing fade and report its end with `CloseAnimationEnd`.
    pub start_close_animation: bool,
    /// Measure the trigger and the panel and report with `Measured`.
    pub measure: bool,
}

/// Whether the panel is shown.
#[derive(PartialEq, Eq, Structural, Clone, Copy, Debug)]
pub enum Visibility {
    Closed,
    Open,
    /// The closing fade runs; the panel is still drawn.
    Closing,
}

/// The states of the controller as the widget sees them.
#[derive(PartialEq, Eq, Structural, Clone, Copy, Debug)]
pub enum TooltipPhase {
    Closed,
    /// Open, waiting for the first measurement.
    Opening,
    /// Open at a known position.
    Open,
    Closing,
}

/// State of one tooltip.
#[derive(PartialEq, Eq, Structural, Clone, Copy, Debug)]
pub struct XTooltip {
    pub visibility: Visibility,
    /// Where the panel was placed when last measured.
    pub position: Option<Rect>,
    /// The trigger changed since `position` was computed; the next opening
    /// measures again.
    pub stale: bool,
}

pub open spec fn no_effects() -> TooltipEffects {
    TooltipEffects {
        notify_open: false,
        notify_close: false,
        start_open_animation: false,
        start_close_animation: false,
        measure: false,
    }
}

impl XTooltip {
    pub open spec fn phase_of(self) -> TooltipPhase {
        match self.visibility {
            Visibility::Closed => TooltipPhase::Closed,
            Visibility::Closing => TooltipPhase::Closing,
            Visibility::Open => if self.position is None {
                TooltipPhase::Opening
            } else {
                TooltipPhase::Open
            },
        }
    }

    /// The panel is drawn under the given settings.
    pub open spec fn shown(self, config: TooltipConfig) -> bool {
        match config.open {
            Some(b) => b,
            None => self.visibility != Visibility::Closed,
        }
    }

    /// Visibility after `msg`.
    pub open spec fn next_visibility(self, config: TooltipConfig, msg: XTooltipMessage) -> Visibility {
        match config.open {
            Some(b) => if b {
                Visibility::Open
            } else {
                Visibility::Closed
            },
            None => match msg {
                XTooltipMessage::MouseEnter => Visibility::Open,
                XTooltipMessage::MouseLeave => if self.visibility == Visibility::Open {
                    if config.close_fades {
                        Visibility::Closing
                    } else {
                        Visibility::Closed
                    }
                } else {
                    self.visibility
                },
                XTooltipMessage::CloseAnimationEnd => if self.visibility == Visibility::Closing {
                    Visibility::Closed
                } else {
                    self.visibility
                },
                _ => self.visibility,
            },
        }
    }

    /// A hover that opens a closed tooltip. A hover during the closing fade
    /// keeps the tooltip open without notifying or fading in again.
    pub open spec fn reopens(self, config: TooltipConfig, msg: XTooltipMessage) -> bool {
        config.open is None && msg == XTooltipMessage::MouseEnter && self.visibility
            == Visibility::Closed
    }

    /// The cached position is dropped: a reopening after the trigger changed.
    pub open spec fn forgets_position(self, config: TooltipConfig, msg: XTooltipMessage) -> bool {
        self.reopens(config, msg) && self.stale
    }

    /// A measurement that arrives while the tooltip is open without a position.
    pub open spec fn takes_measurement(self, config: TooltipConfig, msg: XTooltipMessage) -> bool {
        config.open is None && msg is Measured && self.visibility == Visibility::Open
            && self.position is None
    }

    pub open spec fn next_stale(self, config: TooltipConfig, msg: XTooltipMessage) -> bool {
        if msg == XTooltipMessage::TriggerChanged {
            true
        } else if self.forgets_position(config, msg) {
            false
        } else {
            self.stale
        }
    }

    /// Effects of `msg` on this state.
    pub open spec fn effects_of(self, config: TooltipConfig, msg: XTooltipMessage) -> TooltipEffects {
        match config.open {
            Some(b) => TooltipEffects {
                notify_open: msg == XTooltipMessage::MouseEnter && !b,
                notify_close: msg == XTooltipMessage::MouseLeave && b,
                ..no_effects()
            },
            None => match msg {
                XTooltipMessage::MouseEnter => TooltipEffects {
                    notify_open: self.visibility == Visibility::Closed,
                    start_open_animation: self.visibility == Visibility::Closed && config.open_fades,
                    measure: self.position is None || self.forgets_position(config, msg),
                    ..no_effects()
                },
                XTooltipMessage::MouseLeave => TooltipEffects {
                    notify_close: self.visibility == Visibility::Open,
                    start_close_animation: self.visibility == Visibility::Open && config.close_fades,
                    ..no_effects()
                },
                _ => no_effects(),
            },
        }
    }

    pub fn new() -> (r: XTooltip)
        ensures
            r.visibility == Visibility::Closed,
            r.position is None,
            !r.stale,
    {
        XTooltip { visibility: Visibility::Closed, position: None, stale: false }
    }

    pub fn phase(&self) -> (r: TooltipPhase)
        ensures
            r == self.phase_of(),
    {
        match self.visibility {
            Visibility::Closed => TooltipPhase::Closed,
            Visibility::Closing => TooltipPhase::Closing,
            Visibility::Open => match self.position {
                None => TooltipPhase::Opening,
                Some(_) => TooltipPhase::Open,
            },
        }
    }

    pub fn is_shown(&self, config: &TooltipConfig) -> (r: bool)
        ensures
            r == self.shown(*config),
    {
        match config.open {
            Some(b) => b,
            None => self.visibility != Visibility::Closed,
        }
    }

    /// Handles one message and returns the effects the widget has to carry out.
    ///
    /// With an owner-managed open flag the tooltip mirrors that flag; hovering
    /// then only notifies the owner. Otherwise hovering opens the tooltip,
    /// leaving closes it (through the closing fade when one is set; hovering
    /// again during that fade keeps it open), and the
    /// first measurement after an opening fixes the position. A completion
    /// or measurement that no longer matches the state is ignored.
    pub fn update(&mut self, config: &TooltipConfig, msg: XTooltipMessage) -> (e: TooltipEffects)
        requires
            msg matches XTooltipMessage::Measured(m) ==> m.in_limits(),
        ensures
            final(self).visibility == old(self).next_visibility(*config, msg),
            final(self).stale == old(self).next_stale(*config, msg),
            old(self).forgets_position(*config, msg) ==> final(self).position is None,
            old(self).takes_measurement(*config, msg) ==> (msg matches XTooltipMessage::Measured(m)
                && final(self).position matches Some(r) && is_placement(
                r,
                m.trigger,
                m.panel,
                m.viewport,
                placement_side(m.trigger, m.panel, m.viewport, config.align),
            )),
            !old(self).forgets_position(*config, msg) && !old(self).takes_measurement(*config, msg)
                ==> final(self).position == old(self).position,
            e == old(self).effects_of(*config, msg),
    {
        let was = self.visibility;
        if let XTooltipMessage::TriggerChanged = msg {
            self.stale = true;
        }
        match config.open {
            Some(b) => {
                self.visibility = if b {
                    Visibility::Open
                } else {
                    Visibility::Closed
                };
                TooltipEffects {
                    notify_open: msg == XTooltipMessage::MouseEnter && !b,
                    notify_close: msg == XTooltipMessage::MouseLeave && b,
                    start_open_animation: false,
                    start_close_animation: false,
                    measure: false,
                }
            },
            None => match msg {
                XTooltipMessage::MouseEnter => {
                    let reopening = was == Visibility::Closed;
                    if reopening && self.stale {
                        self.position = None;
                        self.stale = false;
                    }
                    self.visibility = Visibility::Open;
                    TooltipEffects {
                        notify_open: reopening,
                        notify_close: false,
                        start_open_animation: reopening && config.open_fades,
                        start_close_animation: false,
                        measure: self.position.is_none(),
                    }
                },
                XTooltipMessage::MouseLeave => {
                    let closing = was == Visibility::Open;
                    if closing {
                        self.visibility = if config.close_fades {
                            Visibility::Closing
                        } else {
                            Visibility::Closed
                        };
                    }
                    TooltipEffects {
                        notify_open: false,
                        notify_close: closing,
                        start_open_animation: false,
                        start_close_animation: closing && config.close_fades,
                        measure: false,
                    }
                },
                XTooltipMessage::Measured(m) => {
                    if was == Visibility::Open && self.position.is_none() {
                        self.position = Some(compute(m.trigger, m.panel, m.viewport, config.align));
                    }
                    TooltipEffects {
                        notify_open: false,
                        notify_close: false,
                        start_open_animation: false,
                        start_close_animation: false,
                        measure: false,
                    }
                },
                XTooltipMessage::CloseAnimationEnd => {
                    if was == Visibility::Closing {
                        self.visibility = Visibility::Closed;
                    }
                    TooltipEffects {
                        notify_open: false,
                        notify_close: false,
                        start_open_animation: false,
                        start_close_animation: false,
                        measure: false,
                    }
                },
                XTooltipMessage::TriggerChanged => TooltipEffects {
                    notify_open: false,
                    notify_close: false,
                    start_open_animation: false,
                    start_close_animation: false,
                    measure: false,
                },
            },
        }
    }
}

/// Class list of a tooltip.
pub open spec fn tooltip_class_list(
    class: Option<String>,
    disabled: bool,
    kind: XTooltipType,
    align: XTooltipAlign,
) -> Seq<char> {
    "x-tooltip"@ + user_class(class) + word_if(disabled, " disabled"@) + " type-"@ + kind.name()
        + " align-"@ + align.name()
}

/// The class list of a tooltip.
pub fn tooltip_classes(
    class: &Option<String>,
    disabled: bool,
    kind: XTooltipType,
    align: XTooltipAlign,
) -> (r: String)
    ensures
        r@ == tooltip_class_list(*class, disabled, kind, align),
{
    let mut classes = String::from_str("x-tooltip");
    push_user_class(&mut classes, class);
    append_if(&mut classes, disabled, " disabled");
    classes.append(" type-");
    let k = kind.to_string();
    classes.append(k.as_str());
    classes.append(" align-");
    let a = align.to_string();
    classes.append(a.as_str());
    assert(classes@ =~= tooltip_class_list(*class, disabled, kind, align));
    classes
}

/// The user's style for a tooltip, closed with a semicolon when its trimmed
/// form does not already end with one; nothing without a style.
pub open spec fn user_style(style: Option<String>) -> Seq<char> {
    match style {
        Some(s) => {
            let t = trimmed(s@);
            s@ + word_if(!(t.len() > 0 && t.last() == ';'), ";"@)
        },
        None => Seq::empty(),
    }
}

/// The user's part of a tooltip's style; see [`user_style`].
pub fn tooltip_user_style(style: &Option<String>) -> (r: String)
    ensures
        r@ == user_style(*style),
{
    match style {
        Some(s) => {
            let mut out = s.clone();
            let t = trim_text(s.as_str());
            let n = t.as_str().unicode_len();
            let closed = n > 0 && t.as_str().get_char(n - 1) == ';';
            append_if(&mut out, !closed, ";");
            out
        },
        None => String::new(),
    }
}

/// A coordinate as written into a style: negative ones become zero and
/// those past the `u32` range its largest value.
pub open spec fn pixel_offset(v: int) -> int {
    if v < 0 {
        0
    } else if v > u32::MAX {
        u32::MAX as int
    } else {
        v
    }
}

fn to_pixel_offset(v: i64) -> (r: u32)
    ensures
        r == pixel_offset(v as int),
{
    if v < 0 {
        0
    } else if v > u32::MAX as i64 {
        u32::MAX
    } else {
        v as u32
    }
}

impl XTooltip {
    /// Top and left offsets at which the panel is drawn, when it is shown at
    /// a known position.
    pub fn shown_offsets(&self, config: &TooltipConfig) -> (r: Option<(u32, u32)>)
        ensures
            self.shown(*config) && self.position is Some ==> r == Some(
                (
                    pixel_offset(self.position->0.y as int) as u32,
                    pixel_offset(self.position->0.x as int) as u32,
                ),
            ),
            !(self.shown(*config) && self.position is Some) ==> r is None,
    {
        if self.is_shown(config) {
            if let Some(p) = self.position {
                return Some((to_pixel_offset(p.y), to_pixel_offset(p.x)));
            }
        }
        None
    }
}

/// Only a transition of the `opacity` property animates a tooltip; any
/// other property shows or hides it at once.
pub fn fades_opacity(property: &str) -> (r: bool)
    ensures
        r == (property@ == "opacity"@),
{
    same_text(property, "opacity")
}

} // verus!
