//! The press and ripple controller of a menu item.
//!
//! A press that starts on the item itself records a press session and, with
//! the ripple effect, adds a ripple centred on the pointer. Each ripple grows
//! in, then fades out; the fade-out starts only once the grow-in finished and
//! no press is held. Releasing schedules the end of the pressed look no
//! sooner than a minimum press duration after the press began.
use vstd::prelude::*;

use crate::placement::{coord_in_limits, half_down, Rect};
use crate::xcontainer::XContainerContext;
use crate::xmenu::XMenu;
use crate::text::{append_if, word_if};
use crate::{calculate_computed_size, computed_size, XComponentSize};

verus! {

/// Least time a press by mouse or pen is shown as pressed, in milliseconds.
pub const MIN_PRESS_MS: u64 = 150;

/// Least time a touch press is shown as pressed, in milliseconds.
pub const TOUCH_MIN_PRESS_MS: u64 = 600;

/// Number of distinct ripple identities.
pub const RIPPLE_IDENTITIES: u16 = 256;

/// Feedback shown when the item is pressed.
#[derive(PartialEq, Eq, Structural, Clone, Copy, Debug)]
pub enum XMenuItemTriggerEffect {
    Ripple,
    Blink,
    NoEffect,
}

impl Default for XMenuItemTriggerEffect {
    fn default() -> (r: Self)
        ensures
            r == XMenuItemTriggerEffect::Blink,
    {
        XMenuItemTriggerEffect::Blink
    }
}

/// What a menu item may hold besides its label: a submenu.
pub enum XMenuItemChild {
    Menu(XMenu),
}

/// The device behind a pointer.
#[derive(PartialEq, Eq, Structural, Clone, Copy, Debug)]
pub enum PointerKind {
    Mouse,
    Touch,
    Pen,
}

pub open spec fn min_press_ms(kind: PointerKind) -> int {
    if kind == PointerKind::Touch {
        TOUCH_MIN_PRESS_MS as int
    } else {
        MIN_PRESS_MS as int
    }
}

/// A press in progress.
#[derive(PartialEq, Eq, Structural, Clone, Copy, Debug)]
pub struct PressSession {
    /// When the press began, in milliseconds.
    pub started_at: u64,
    pub kind: PointerKind,
}

/// Time from the release at `now` until the pressed look may end: what is
/// left of the minimum press duration, or zero once it has passed.
pub open spec fn reset_delay(session: PressSession, now: u64) -> int {
    let elapsed = if now >= session.started_at {
        now - session.started_at
    } else {
        0
    };
    if elapsed < min_press_ms(session.kind) {
        min_press_ms(session.kind) - elapsed
    } else {
        0
    }
}

/// Progress of one of a ripple's two animations.
#[derive(PartialEq, Eq, Structural, Clone, Copy, Debug)]
pub enum RipplePhase {
    Created,
    Started,
    Finished,
}

/// One ripple, in pixels relative to the item's ripple area.
#[derive(PartialEq, Eq, Structural, Clone, Copy, Debug)]
pub struct RippleEntry {
    /// Handle of the ripple, unique among the live ripples.
    pub identity: u8,
    pub size: i64,
    pub top: i64,
    pub left: i64,
    /// The grow-in animation.
    pub phase_in: RipplePhase,
    /// The fade-out animation.
    pub phase_out: RipplePhase,
}

impl RippleEntry {
    /// Grown in, with the fade-out not yet asked for.
    pub open spec fn awaits_out(self) -> bool {
        self.phase_in == RipplePhase::Finished && self.phase_out == RipplePhase::Created
    }

    /// The entry once its waiting fade-out has been started.
    pub open spec fn out_started(self) -> RippleEntry {
        if self.awaits_out() {
            RippleEntry { phase_out: RipplePhase::Started, ..self }
        } else {
            self
        }
    }

    /// The entry once its grow-in has been started, if it was not yet.
    pub open spec fn in_started(self) -> RippleEntry {
        if self.phase_in == RipplePhase::Created {
            RippleEntry { phase_in: RipplePhase::Started, ..self }
        } else {
            self
        }
    }
}

pub open spec fn identity_used(rs: Seq<RippleEntry>, id: int) -> bool {
    exists|i: int| 0 <= i < rs.len() && #[trigger] rs[i].identity == id
}

/// `id` is the smallest identity that no ripple of `rs` holds.
pub open spec fn smallest_free(rs: Seq<RippleEntry>, id: int) -> bool {
    &&& 0 <= id < RIPPLE_IDENTITIES
    &&& !identity_used(rs, id)
    &&& forall|k: int| 0 <= k < id ==> identity_used(rs, k)
}

pub open spec fn has_free_identity(rs: Seq<RippleEntry>) -> bool {
    exists|k: int| 0 <= k < RIPPLE_IDENTITIES && !identity_used(rs, k)
}

/// Identities of the ripples waiting for their fade-out, in order.
pub open spec fn awaiting_ids(rs: Seq<RippleEntry>) -> Seq<u8>
    decreases rs.len(),
{
    if rs.len() == 0 {
        Seq::empty()
    } else {
        let rest = awaiting_ids(rs.drop_last());
        if rs.last().awaits_out() {
            rest.push(rs.last().identity)
        } else {
            rest
        }
    }
}

/// Identities of the ripples whose grow-in has not started, in order.
pub open spec fn created_ids(rs: Seq<RippleEntry>) -> Seq<u8>
    decreases rs.len(),
{
    if rs.len() == 0 {
        Seq::empty()
    } else {
        let rest = created_ids(rs.drop_last());
        if rs.last().phase_in == RipplePhase::Created {
            rest.push(rs.last().identity)
        } else {
            rest
        }
    }
}

/// Number of bits set in `b`: the buttons held, for a button bit set.
pub open spec fn set_bits(b: nat) -> nat
    decreases b,
{
    if b == 0 {
        0
    } else {
        (b % 2) + set_bits(b / 2)
    }
}

proof fn lemma_set_bits_bound(b: nat)
    ensures
        set_bits(b) <= b,
    decreases b,
{
    if b > 0 {
        lemma_set_bits_bound(b / 2);
    }
}

/// Counts the buttons held in a button bit set.
pub fn count_buttons(buttons: u16) -> (r: u32)
    ensures
        r == set_bits(buttons as nat),
{
    let mut rest: u16 = buttons;
    let mut count: u32 = 0;
    proof {
        lemma_set_bits_bound(buttons as nat);
    }
    while rest > 0
        invariant
            count + set_bits(rest as nat) == set_bits(buttons as nat),
            set_bits(buttons as nat) <= buttons,
        decreases rest,
    {
        proof {
            lemma_set_bits_bound((rest / 2) as nat);
        }
        count = count + (rest % 2) as u32;
        rest = rest / 2;
    }
    count
}

/// A pointer going down, as read from the event and the page.
#[derive(PartialEq, Eq, Structural, Clone, Copy, Debug)]
pub struct PointerPress {
    /// Mouse buttons held, as a bit set.
    pub buttons: u16,
    /// The nearest menu item around the event's target is this one.
    pub on_this_item: bool,
    pub kind: PointerKind,
    /// Time of the event, in milliseconds.
    pub at: u64,
    pub client_x: i64,
    pub client_y: i64,
    /// The item's ripple area.
    pub area: Rect,
}

impl PointerPress {
    pub open spec fn in_limits(self) -> bool {
        coord_in_limits(self.client_x as int) && coord_in_limits(self.client_y as int)
            && self.area.in_limits()
    }

    pub fn is_in_limits(&self) -> (r: bool)
        ensures
            r == self.in_limits(),
    {
        -crate::placement::COORD_LIMIT <= self.client_x && self.client_x
            <= crate::placement::COORD_LIMIT && -crate::placement::COORD_LIMIT <= self.client_y
            && self.client_y <= crate::placement::COORD_LIMIT && self.area.is_in_limits()
    }

    /// A press the item takes: at most one button held (one bit of
    /// `buttons` set), and aimed at this item rather than an item nested in it.
    pub open spec fn accepted(self) -> bool {
        set_bits(self.buttons as nat) <= 1 && self.on_this_item
    }

    /// Diameter of a ripple: one and a half times the larger side of the area.
    pub open spec fn ripple_size(self) -> int {
        let larger = if self.area.width >= self.area.height {
            self.area.width
        } else {
            self.area.height
        };
        (3 * larger) / 2
    }

    /// The ripple this press creates with identity `id`: centred on the
    /// pointer, relative to the ripple area.
    pub open spec fn makes_ripple(self, e: RippleEntry, id: int) -> bool {
        &&& e.identity == id
        &&& e.size == self.ripple_size()
        &&& e.top == self.client_y - self.area.y - self.ripple_size() / 2
        &&& e.left == self.client_x - self.area.x - self.ripple_size() / 2
        &&& e.phase_in == RipplePhase::Created
        &&& e.phase_out == RipplePhase::Created
    }
}

/// Messages the menu item controller handles.
#[derive(PartialEq, Eq, Structural, Clone, Copy, Debug)]
pub enum XMenuItemMessage {
    Focus,
    Blur,
    ContainerUpdated(XContainerContext),
    PointerDown(PointerPress),
    /// The pointer went up; the time in milliseconds.
    PointerUp(u64),
    /// The delay scheduled at release is over.
    ResetPressed,
    RippleInAnimationFinished(u8),
    RippleOutAnimationFinished(u8),
}

/// What the widget has to do after a message.
#[derive(Debug)]
pub struct MenuItemEffects {
    /// Capture the pointer that went down.
    pub capture_pointer: bool,
    /// Ripples whose fade-out starts now; each reports its end with
    /// `RippleOutAnimationFinished`.
    pub start_out: Vec<u8>,
    /// Send `ResetPressed` after this many milliseconds.
    pub reset_after: Option<u64>,
    /// The last ripple is gone: tell the owner the trigger effect ended.
    pub trigger_end: bool,
}

/// What the widget has to do once new ripples are drawn.
#[derive(Debug)]
pub struct RenderEffects {
    /// Ripples whose grow-in starts now; each reports its end with
    /// `RippleInAnimationFinished`.
    pub start_in: Vec<u8>,
    /// Capture the held pointer again.
    pub recapture_pointer: bool,
}

impl MenuItemEffects {
    pub open spec fn quiet(self) -> bool {
        &&& !self.capture_pointer
        &&& self.start_out@ == Seq::<u8>::empty()
        &&& self.reset_after is None
        &&& !self.trigger_end
    }
}

/// State of one menu item.
pub struct XMenuItem {
    pub focused: bool,
    pub container: XContainerContext,
    /// The press being held, if any.
    pub session: Option<PressSession>,
    /// Live ripples in stacking order.
    pub ripples: Vec<RippleEntry>,
    /// The pressed look is shown.
    pub pressed: bool,
}

/// The grow-in of ripple `id` ends now: it is live and not yet grown in.
pub open spec fn in_finishes(rs: Seq<RippleEntry>, id: u8) -> bool {
    exists|i: int| 0 <= i < rs.len() && #[trigger] rs[i].identity == id && rs[i].phase_in
        != RipplePhase::Finished
}

/// The fade-out of ripple `id` ends now: it is live and fading out.
pub open spec fn out_finishes(rs: Seq<RippleEntry>, id: u8) -> bool {
    exists|i: int| 0 <= i < rs.len() && #[trigger] rs[i].identity == id && rs[i].phase_out
        == RipplePhase::Started
}

impl XMenuItem {
    /// The ripples are consistent: distinct identities; a fade-out only after
    /// the grow-in; a finished fade-out removes the ripple; and while no press
    /// is held, no grown-in ripple waits for its fade-out.
    pub open spec fn wf(&self) -> bool {
        let rs = self.ripples@;
        &&& forall|i: int, j: int|
            0 <= i < j < rs.len() ==> #[trigger] rs[i].identity != #[trigger] rs[j].identity
        &&& forall|i: int|
            0 <= i < rs.len() ==> #[trigger] rs[i].phase_out != RipplePhase::Finished && (
            rs[i].phase_out != RipplePhase::Created ==> rs[i].phase_in == RipplePhase::Finished)
        &&& self.session is None ==> forall|i: int| 0 <= i < rs.len() ==> !#[trigger] rs[i].awaits_out()
    }

    /// `self` and `other` agree on everything but the press and the ripples.
    pub open spec fn same_widget(&self, other: &Self) -> bool {
        self.focused == other.focused && self.container == other.container
    }

    /// `self` and `other` agree on the press and the ripples.
    pub open spec fn same_press(&self, other: &Self) -> bool {
        &&& self.session == other.session
        &&& self.ripples@ == other.ripples@
        &&& self.pressed == other.pressed
    }

    pub fn new(container: XContainerContext) -> (r: XMenuItem)
        ensures
            r.wf(),
            !r.focused,
            r.container == container,
            r.session is None,
            r.ripples@.len() == 0,
            !r.pressed,
    {
        XMenuItem {
            focused: false,
            container,
            session: None,
            ripples: Vec::new(),
            pressed: false,
        }
    }
}


impl RippleEntry {
    /// The entry once its grow-in reported the end; the fade-out starts at
    /// once unless a press is held.
    pub open spec fn grown(self, held: bool) -> RippleEntry {
        RippleEntry {
            phase_in: RipplePhase::Finished,
            phase_out: if held {
                self.phase_out
            } else {
                RipplePhase::Started
            },
            ..self
        }
    }
}

impl XMenuItem {
    /// Effect of a pointer going down.
    pub open spec fn press_step(
        self,
        next: Self,
        effect: XMenuItemTriggerEffect,
        p: PointerPress,
        e: MenuItemEffects,
    ) -> bool {
        &&& next.same_widget(&self)
        &&& e.start_out@.len() == 0
        &&& e.reset_after is None
        &&& !e.trigger_end
        &&& if p.accepted() {
            &&& e.capture_pointer
            &&& next.session == Some(PressSession { started_at: p.at, kind: p.kind })
            &&& next.pressed
            &&& if effect == XMenuItemTriggerEffect::Ripple && has_free_identity(self.ripples@) {
                &&& next.ripples@.len() == self.ripples@.len() + 1
                &&& next.ripples@.drop_last() == self.ripples@
                &&& smallest_free(self.ripples@, next.ripples@.last().identity as int)
                &&& p.makes_ripple(next.ripples@.last(), next.ripples@.last().identity as int)
            } else {
                next.ripples@ == self.ripples@
            }
        } else {
            !e.capture_pointer && next.same_press(&self)
        }
    }

    /// Effect of the pointer going up at time `now`.
    pub open spec fn release_step(self, next: Self, now: u64, e: MenuItemEffects) -> bool {
        &&& next.same_widget(&self)
        &&& !e.capture_pointer
        &&& !e.trigger_end
        &&& match self.session {
            Some(s) => {
                &&& next.session is None
                &&& next.pressed == self.pressed
                &&& next.ripples@.len() == self.ripples@.len()
                &&& forall|i: int|
                    0 <= i < self.ripples@.len() ==> next.ripples@[i]
                        == #[trigger] self.ripples@[i].out_started()
                &&& e.start_out@ == awaiting_ids(self.ripples@)
                &&& e.reset_after == Some(reset_delay(s, now) as u64)
            },
            None => next.same_press(&self) && e.start_out@.len() == 0 && e.reset_after is None,
        }
    }

    /// Effect of the delay after a release running out: the pressed look ends
    /// unless a new press is held.
    pub open spec fn reset_step(self, next: Self, e: MenuItemEffects) -> bool {
        &&& next.same_widget(&self)
        &&& next.session == self.session
        &&& next.ripples@ == self.ripples@
        &&& next.pressed == (self.pressed && self.session is Some)
        &&& e.quiet()
    }

    /// Effect of the grow-in of ripple `id` ending.
    pub open spec fn in_step(self, next: Self, id: u8, e: MenuItemEffects) -> bool {
        &&& next.same_widget(&self)
        &&& next.session == self.session
        &&& next.pressed == self.pressed
        &&& !e.capture_pointer
        &&& e.reset_after is None
        &&& !e.trigger_end
        &&& next.ripples@.len() == self.ripples@.len()
        &&& forall|i: int|
            0 <= i < self.ripples@.len() ==> next.ripples@[i] == if #[trigger] self.ripples@[i].identity
                == id && self.ripples@[i].phase_in != RipplePhase::Finished {
                self.ripples@[i].grown(self.session is Some)
            } else {
                self.ripples@[i]
            }
        &&& e.start_out@ == if in_finishes(self.ripples@, id) && self.session is None {
            seq![id]
        } else {
            Seq::<u8>::empty()
        }
    }

    /// Effect of the fade-out of ripple `id` ending: the ripple goes.
    pub open spec fn out_step(self, next: Self, id: u8, e: MenuItemEffects) -> bool {
        &&& next.same_widget(&self)
        &&& next.session == self.session
        &&& next.pressed == self.pressed
        &&& !e.capture_pointer
        &&& e.reset_after is None
        &&& e.start_out@.len() == 0
        &&& forall|i: int|
            0 <= i < self.ripples@.len() && #[trigger] self.ripples@[i].identity == id
                && self.ripples@[i].phase_out == RipplePhase::Started ==> next.ripples@
                == self.ripples@.remove(i)
        &&& !out_finishes(self.ripples@, id) ==> next.ripples@ == self.ripples@
        &&& e.trigger_end == (out_finishes(self.ripples@, id) && next.ripples@.len() == 0)
    }

    /// The effect of one message.
    pub open spec fn step(
        self,
        next: Self,
        effect: XMenuItemTriggerEffect,
        msg: XMenuItemMessage,
        e: MenuItemEffects,
    ) -> bool {
        match msg {
            XMenuItemMessage::Focus => next.focused && next.container == self.container
                && next.same_press(&self) && e.quiet(),
            XMenuItemMessage::Blur => !next.focused && next.container == self.container
                && next.same_press(&self) && e.quiet(),
            XMenuItemMessage::ContainerUpdated(c) => next.focused == self.focused && next.container
                == c && next.same_press(&self) && e.quiet(),
            XMenuItemMessage::PointerDown(p) => self.press_step(next, effect, p, e),
            XMenuItemMessage::PointerUp(now) => self.release_step(next, now, e),
            XMenuItemMessage::ResetPressed => self.reset_step(next, e),
            XMenuItemMessage::RippleInAnimationFinished(id) => self.in_step(next, id, e),
            XMenuItemMessage::RippleOutAnimationFinished(id) => self.out_step(next, id, e),
        }
    }
}

fn position_of(rs: &Vec<RippleEntry>, id: u8) -> (r: Option<usize>)
    ensures
        r matches Some(i) ==> i < rs@.len() && rs@[i as int].identity == id,
        r is None ==> !identity_used(rs@, id as int),
{
    let mut i: usize = 0;
    while i < rs.len()
        invariant
            i <= rs@.len(),
            forall|j: int| 0 <= j < i ==> rs@[j].identity != id,
        decreases rs@.len() - i,
    {
        if rs[i].identity == id {
            return Some(i);
        }
        i += 1;
    }
    None
}

fn free_identity(rs: &Vec<RippleEntry>) -> (r: Option<u8>)
    ensures
        r matches Some(id) ==> smallest_free(rs@, id as int),
        r is None ==> !has_free_identity(rs@),
{
    let mut k: u16 = 0;
    while k < RIPPLE_IDENTITIES
        invariant
            k <= RIPPLE_IDENTITIES,
            forall|j: int| 0 <= j < k ==> identity_used(rs@, j),
        decreases RIPPLE_IDENTITIES - k,
    {
        if position_of(rs, k as u8).is_none() {
            return Some(k as u8);
        }
        k += 1;
    }
    None
}

fn quiet_effects() -> (e: MenuItemEffects)
    ensures
        e.quiet(),
{
    MenuItemEffects { capture_pointer: false, start_out: Vec::new(), reset_after: None, trigger_end: false }
}

/// What is left of the minimum press duration at `now`.
pub fn press_reset_delay(session: &PressSession, now: u64) -> (r: u64)
    ensures
        r == reset_delay(*session, now),
{
    let elapsed: u64 = if now >= session.started_at {
        now - session.started_at
    } else {
        0
    };
    let min: u64 = match session.kind {
        PointerKind::Touch => TOUCH_MIN_PRESS_MS,
        _ => MIN_PRESS_MS,
    };
    if elapsed < min {
        min - elapsed
    } else {
        0
    }
}

impl XMenuItem {
    fn press(&mut self, effect: XMenuItemTriggerEffect, p: PointerPress) -> (e: MenuItemEffects)
        requires
            old(self).wf(),
            p.in_limits(),
        ensures
            final(self).wf(),
            old(self).press_step(*final(self), effect, p, e),
    {
        if !(count_buttons(p.buttons) <= 1 && p.on_this_item) {
            return quiet_effects();
        }
        self.session = Some(PressSession { started_at: p.at, kind: p.kind });
        self.pressed = true;
        if effect == XMenuItemTriggerEffect::Ripple {
            if let Some(id) = free_identity(&self.ripples) {
                let larger = if p.area.width >= p.area.height {
                    p.area.width
                } else {
                    p.area.height
                };
                let size = half_down(3 * larger);
                let ripple = RippleEntry {
                    identity: id,
                    size,
                    top: p.client_y - p.area.y - half_down(size),
                    left: p.client_x - p.area.x - half_down(size),
                    phase_in: RipplePhase::Created,
                    phase_out: RipplePhase::Created,
                };
                self.ripples.push(ripple);
                assert(self.ripples@.drop_last() =~= old(self).ripples@);
            }
        }
        MenuItemEffects { capture_pointer: true, start_out: Vec::new(), reset_after: None, trigger_end: false }
    }

    fn release(&mut self, now: u64) -> (e: MenuItemEffects)
        requires
            old(self).wf(),
        ensures
            final(self).wf(),
            old(self).release_step(*final(self), now, e),
    {
        let session = match self.session {
            Some(s) => s,
            None => {
                return quiet_effects();
            },
        };
        self.session = None;
        let ghost before = self.ripples@;
        let mut out: Vec<u8> = Vec::new();
        let mut i: usize = 0;
        while i < self.ripples.len()
            invariant
                before == old(self).ripples@,
                self.session is None,
                self.same_widget(&*old(self)),
                self.pressed == old(self).pressed,
                self.ripples@.len() == before.len(),
                i <= before.len(),
                forall|j: int| 0 <= j < i ==> self.ripples@[j] == #[trigger] before[j].out_started(),
                forall|j: int| i <= j < before.len() ==> self.ripples@[j] == before[j],
                out@ == awaiting_ids(before.subrange(0, i as int)),
            decreases before.len() - i,
        {
            let r = self.ripples[i];
            if r.phase_in == RipplePhase::Finished && r.phase_out == RipplePhase::Created {
                self.ripples[i] = RippleEntry { phase_out: RipplePhase::Started, ..r };
                out.push(r.identity);
            }
            assert(before.subrange(0, i + 1).drop_last() =~= before.subrange(0, i as int));
            i += 1;
        }
        assert(before.subrange(0, before.len() as int) =~= before);
        proof {
            let rs = self.ripples@;
            assert forall|a: int, b: int| 0 <= a < b < rs.len() implies #[trigger] rs[a].identity
                != #[trigger] rs[b].identity by {
                assert(rs[a] == before[a].out_started());
                assert(rs[b] == before[b].out_started());
            }
            assert forall|a: int| 0 <= a < rs.len() implies !#[trigger] rs[a].awaits_out() by {
                assert(rs[a] == before[a].out_started());
            }
            assert forall|a: int| 0 <= a < rs.len() implies #[trigger] rs[a].phase_out
                != RipplePhase::Finished && (rs[a].phase_out != RipplePhase::Created
                ==> rs[a].phase_in == RipplePhase::Finished) by {
                assert(rs[a] == before[a].out_started());
            }
        }
        MenuItemEffects {
            capture_pointer: false,
            start_out: out,
            reset_after: Some(press_reset_delay(&session, now)),
            trigger_end: false,
        }
    }

    fn finish_in(&mut self, id: u8) -> (e: MenuItemEffects)
        requires
            old(self).wf(),
        ensures
            final(self).wf(),
            old(self).in_step(*final(self), id, e),
    {
        let ghost before = self.ripples@;
        if let Some(i) = position_of(&self.ripples, id) {
            let r = self.ripples[i];
            if r.phase_in != RipplePhase::Finished {
                let held = self.session.is_some();
                let phase_out = if held {
                    r.phase_out
                } else {
                    RipplePhase::Started
                };
                self.ripples[i] = RippleEntry { phase_in: RipplePhase::Finished, phase_out, ..r };
                let mut out: Vec<u8> = Vec::new();
                if !held {
                    out.push(id);
                }
                proof {
                    assert(in_finishes(before, id));
                    assert(out@ =~= (if held { Seq::<u8>::empty() } else { seq![id] }));
                    assert forall|j: int| 0 <= j < before.len() && j != i implies #[trigger] before[j].identity != id by {
                        if j < i {
                            assert(before[j].identity != before[i as int].identity);
                        } else {
                            assert(before[i as int].identity != before[j].identity);
                        }
                    }
                }
                return MenuItemEffects { capture_pointer: false, start_out: out, reset_after: None, trigger_end: false };
            }
            proof {
                assert forall|j: int| 0 <= j < before.len() && #[trigger] before[j].identity == id implies before[j].phase_in == RipplePhase::Finished by {
                    if j < i {
                        assert(before[j].identity != before[i as int].identity);
                    } else if j > i {
                        assert(before[i as int].identity != before[j].identity);
                    }
                }
            }
        }
        assert(!in_finishes(before, id));
        quiet_effects()
    }

    fn finish_out(&mut self, id: u8) -> (e: MenuItemEffects)
        requires
            old(self).wf(),
        ensures
            final(self).wf(),
            old(self).out_step(*final(self), id, e),
    {
        let ghost before = self.ripples@;
        if let Some(i) = position_of(&self.ripples, id) {
            if self.ripples[i].phase_out == RipplePhase::Started {
                self.ripples.remove(i);
                let end = self.ripples.len() == 0;
                proof {
                    before.remove_ensures(i as int);
                    assert(out_finishes(before, id));
                    assert forall|j: int| 0 <= j < before.len() && #[trigger] before[j].identity == id && before[j].phase_out == RipplePhase::Started implies j == i by {
                        if j < i {
                            assert(before[j].identity != before[i as int].identity);
                        } else if j > i {
                            assert(before[i as int].identity != before[j].identity);
                        }
                    }
                    let rs = self.ripples@;
                    assert forall|a: int, b: int| 0 <= a < b < rs.len() implies #[trigger] rs[a].identity
                        != #[trigger] rs[b].identity by {
                        let oa = if a < i { a } else { a + 1 };
                        let ob = if b < i { b } else { b + 1 };
                        assert(rs[a] == before[oa]);
                        assert(rs[b] == before[ob]);
                    }
                    assert forall|a: int| 0 <= a < rs.len() implies #[trigger] rs[a].phase_out
                        != RipplePhase::Finished && (rs[a].phase_out != RipplePhase::Created
                        ==> rs[a].phase_in == RipplePhase::Finished) by {
                        let oa = if a < i { a } else { a + 1 };
                        assert(rs[a] == before[oa]);
                    }
                    if self.session is None {
                        assert forall|a: int| 0 <= a < rs.len() implies !#[trigger] rs[a].awaits_out() by {
                            let oa = if a < i { a } else { a + 1 };
                            assert(rs[a] == before[oa]);
                        }
                    }
                }
                return MenuItemEffects { capture_pointer: false, start_out: Vec::new(), reset_after: None, trigger_end: end };
            }
            proof {
                assert forall|j: int| 0 <= j < before.len() && #[trigger] before[j].identity == id implies before[j].phase_out != RipplePhase::Started by {
                    if j < i {
                        assert(before[j].identity != before[i as int].identity);
                    } else if j > i {
                        assert(before[i as int].identity != before[j].identity);
                    }
                }
            }
        }
        assert(!out_finishes(before, id));
        quiet_effects()
    }

    /// Handles one message and returns the effects the widget has to carry
    /// out; see [`XMenuItem::step`].
    pub fn update(&mut self, effect: XMenuItemTriggerEffect, msg: XMenuItemMessage) -> (e: MenuItemEffects)
        requires
            old(self).wf(),
            msg matches XMenuItemMessage::PointerDown(p) ==> p.in_limits(),
        ensures
            final(self).wf(),
            old(self).step(*final(self), effect, msg, e),
    {
        match msg {
            XMenuItemMessage::Focus => {
                self.focused = true;
                quiet_effects()
            },
            XMenuItemMessage::Blur => {
                self.focused = false;
                quiet_effects()
            },
            XMenuItemMessage::ContainerUpdated(c) => {
                self.container = c;
                quiet_effects()
            },
            XMenuItemMessage::PointerDown(p) => self.press(effect, p),
            XMenuItemMessage::PointerUp(now) => self.release(now),
            XMenuItemMessage::ResetPressed => {
                if self.session.is_none() {
                    self.pressed = false;
                }
                quiet_effects()
            },
            XMenuItemMessage::RippleInAnimationFinished(id) => self.finish_in(id),
            XMenuItemMessage::RippleOutAnimationFinished(id) => self.finish_out(id),
        }
    }

    /// Called once the widget is drawn: starts the grow-in of every ripple
    /// drawn for the first time.
    pub fn rendered(&mut self) -> (r: RenderEffects)
        requires
            old(self).wf(),
        ensures
            final(self).wf(),
            final(self).same_widget(&*old(self)),
            final(self).session == old(self).session,
            final(self).pressed == old(self).pressed,
            final(self).ripples@.len() == old(self).ripples@.len(),
            forall|i: int|
                0 <= i < old(self).ripples@.len() ==> final(self).ripples@[i]
                    == #[trigger] old(self).ripples@[i].in_started(),
            r.start_in@ == created_ids(old(self).ripples@),
            r.recapture_pointer == (old(self).session is Some && r.start_in@.len() > 0),
    {
        let ghost before = self.ripples@;
        let mut started: Vec<u8> = Vec::new();
        let mut i: usize = 0;
        while i < self.ripples.len()
            invariant
                before == old(self).ripples@,
                self.session == old(self).session,
                self.same_widget(&*old(self)),
                self.pressed == old(self).pressed,
                self.ripples@.len() == before.len(),
                i <= before.len(),
                forall|j: int| 0 <= j < i ==> self.ripples@[j] == #[trigger] before[j].in_started(),
                forall|j: int| i <= j < before.len() ==> self.ripples@[j] == before[j],
                started@ == created_ids(before.subrange(0, i as int)),
            decreases before.len() - i,
        {
            let r = self.ripples[i];
            if r.phase_in == RipplePhase::Created {
                self.ripples[i] = RippleEntry { phase_in: RipplePhase::Started, ..r };
                started.push(r.identity);
            }
            assert(before.subrange(0, i + 1).drop_last() =~= before.subrange(0, i as int));
            i += 1;
        }
        assert(before.subrange(0, before.len() as int) =~= before);
        proof {
            let rs = self.ripples@;
            assert forall|a: int, b: int| 0 <= a < b < rs.len() implies #[trigger] rs[a].identity
                != #[trigger] rs[b].identity by {
                assert(rs[a] == before[a].in_started());
                assert(rs[b] == before[b].in_started());
            }
            assert forall|a: int| 0 <= a < rs.len() implies #[trigger] rs[a].phase_out
                != RipplePhase::Finished && (rs[a].phase_out != RipplePhase::Created
                ==> rs[a].phase_in == RipplePhase::Finished) by {
                assert(rs[a] == before[a].in_started());
            }
            if self.session is None {
                assert forall|a: int| 0 <= a < rs.len() implies !#[trigger] rs[a].awaits_out() by {
                    assert(rs[a] == before[a].in_started());
                }
            }
        }
        let recapture = self.session.is_some() && started.len() > 0;
        RenderEffects { start_in: started, recapture_pointer: recapture }
    }

    /// The pressed look is shown.
    pub fn is_pressed(&self) -> (r: bool)
        ensures
            r == self.pressed,
    {
        self.pressed
    }
}

/// Releasing a held press schedules the end of the pressed look no sooner
/// than the minimum press duration after the press began (600 ms for touch,
/// 150 ms for mouse and pen); a press held at least that long ends at once.
pub proof fn lemma_reset_respects_minimum(
    s: XMenuItem,
    next: XMenuItem,
    effect: XMenuItemTriggerEffect,
    now: u64,
    e: MenuItemEffects,
)
    requires
        s.wf(),
        s.step(next, effect, XMenuItemMessage::PointerUp(now), e),
        s.session matches Some(p) && p.started_at <= now,
    ensures
        min_press_ms(PointerKind::Touch) == 600,
        min_press_ms(PointerKind::Mouse) == 150,
        min_press_ms(PointerKind::Pen) == 150,
        s.session matches Some(p) && e.reset_after matches Some(d) && {
            let elapsed = now - p.started_at;
            &&& elapsed + d >= min_press_ms(p.kind)
            &&& elapsed < min_press_ms(p.kind) ==> d == min_press_ms(p.kind) - elapsed
            &&& elapsed >= min_press_ms(p.kind) ==> d == 0
        },
{
}

spec fn holds_awaiting(rs: Seq<RippleEntry>, id: u8) -> bool {
    exists|i: int| 0 <= i < rs.len() && rs[i].awaits_out() && #[trigger] rs[i].identity == id
}

proof fn lemma_awaiting_ids_members(rs: Seq<RippleEntry>)
    ensures
        forall|k: int|
            0 <= k < awaiting_ids(rs).len() ==> holds_awaiting(rs, #[trigger] awaiting_ids(rs)[k]),
    decreases rs.len(),
{
    if rs.len() > 0 {
        let rest = rs.drop_last();
        lemma_awaiting_ids_members(rest);
        assert forall|k: int| 0 <= k < awaiting_ids(rs).len() implies holds_awaiting(
            rs,
            #[trigger] awaiting_ids(rs)[k],
        ) by {
            if k < awaiting_ids(rest).len() {
                assert(holds_awaiting(rest, awaiting_ids(rest)[k]));
                let i = choose|i: int|
                    0 <= i < rest.len() && rest[i].awaits_out() && #[trigger] rest[i].identity
                        == awaiting_ids(rest)[k];
                assert(rs[i] == rest[i]);
            } else {
                assert(rs[rs.len() - 1].identity == awaiting_ids(rs)[k]);
            }
        }
    }
}

/// Ripple `id` is live, has grown in, and is fading out.
pub open spec fn fading_after_grow_in(rs: Seq<RippleEntry>, id: u8) -> bool {
    exists|i: int|
        0 <= i < rs.len() && #[trigger] rs[i].identity == id && rs[i].phase_in == RipplePhase::Finished
            && rs[i].phase_out == RipplePhase::Started
}

/// A ripple's fade-out is asked for only once its grow-in has finished and
/// no press is held: after any message, each ripple whose fade-out starts
/// is live, grown in and fading out, and no press is held.
pub proof fn lemma_fade_out_after_grow_in_and_release(
    s: XMenuItem,
    next: XMenuItem,
    effect: XMenuItemTriggerEffect,
    msg: XMenuItemMessage,
    e: MenuItemEffects,
)
    requires
        s.wf(),
        s.step(next, effect, msg, e),
    ensures
        e.start_out@.len() > 0 ==> next.session is None,
        forall|k: int|
            0 <= k < e.start_out@.len() ==> fading_after_grow_in(
                next.ripples@,
                #[trigger] e.start_out@[k],
            ),
{
    match msg {
        XMenuItemMessage::PointerUp(now) => {
            if s.session is Some {
                lemma_awaiting_ids_members(s.ripples@);
                assert forall|k: int| 0 <= k < e.start_out@.len() implies fading_after_grow_in(
                    next.ripples@,
                    #[trigger] e.start_out@[k],
                ) by {
                    assert(holds_awaiting(s.ripples@, awaiting_ids(s.ripples@)[k]));
                    let i = choose|i: int|
                        0 <= i < s.ripples@.len() && s.ripples@[i].awaits_out()
                            && #[trigger] s.ripples@[i].identity == awaiting_ids(s.ripples@)[k];
                    assert(next.ripples@[i] == s.ripples@[i].out_started());
                    assert(e.start_out@ == awaiting_ids(s.ripples@));
                    assert(next.ripples@[i].identity == e.start_out@[k]);
                }
            } else {
                assert(e.start_out@.len() == 0);
            }
        },
        XMenuItemMessage::RippleInAnimationFinished(id) => {
            if in_finishes(s.ripples@, id) && s.session is None {
                let i = choose|i: int|
                    0 <= i < s.ripples@.len() && #[trigger] s.ripples@[i].identity == id
                        && s.ripples@[i].phase_in != RipplePhase::Finished;
                assert(next.ripples@[i] == s.ripples@[i].grown(false));
                assert(e.start_out@[0] == id);
                assert(next.ripples@[i].identity == id);
                assert(fading_after_grow_in(next.ripples@, id));
            } else {
                assert(e.start_out@.len() == 0);
            }
        },
        _ => {},
    }
}

impl XMenuItem {
    /// Class list of the item, given the size it asks for.
    pub open spec fn class_list(
        &self,
        size: Option<XComponentSize>,
        togglable: bool,
        toggled: bool,
    ) -> Seq<char> {
        "x-menuitem computedsize-"@ + computed_size(size, self.container.size).name() + word_if(
            togglable,
            " togglable"@,
        ) + word_if(toggled, " toggled"@) + word_if(self.pressed, " pressed"@)
    }

    /// The class list of the item.
    pub fn classes(&self, size: Option<XComponentSize>, togglable: bool, toggled: bool) -> (r: String)
        ensures
            r@ == self.class_list(size, togglable, toggled),
    {
        let mut classes = String::from_str("x-menuitem computedsize-");
        let computed = calculate_computed_size(size, self.container.size).to_string();
        classes.append(computed.as_str());
        append_if(&mut classes, togglable, " togglable");
        append_if(&mut classes, toggled, " toggled");
        append_if(&mut classes, self.pressed, " pressed");
        assert(classes@ =~= self.class_list(size, togglable, toggled));
        classes
    }
}

} // verus!
