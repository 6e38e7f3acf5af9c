//! The review panel's card: what it is showing, what it will paste and where, and where the
//! card sits on the monitor the dictation was aimed from.

use vstd::prelude::*;
use vstd::string::*;

use crate::i18n::lookup;
use crate::paste::{label_for, label_spec};
use crate::platform::screen::{Monitor, Rect};
use crate::settings::{level_name, opt_string_view, positions_view, PanelPosition, Settings, Strictness};
use crate::text::{trim, trimmed};

verus! {

/// The card's width, in logical pixels.
pub const CARD_WIDTH: u32 = 680;

/// The card's height in every state but *result*, in logical pixels.
pub const CARD_BASE: u32 = 64;

/// The tallest the card may grow to: three lines of text plus the controls.
pub const CARD_MAX: u32 = 168;

/// Transparent space left around the card on every side, for its shadow.
pub const GUTTER: u32 = 14;

/// The window, which is the card plus its gutter on both sides.
pub const WIDTH: u32 = 708;

/// The window's height in every state but *result*.
pub const BASE_HEIGHT: u32 = 92;

/// The tallest the window may grow to.
pub const MAX_HEIGHT: u32 = 196;

/// How far below the top of the work area the card's own top edge sits.
pub const TOP_MARGIN: u32 = 24;

/// The window height for a card the page measured at `card_height`: the card is held
/// between one line and three, and the gutter goes around it.
pub open spec fn window_height_spec(card_height: u32) -> u32 {
    (if card_height < CARD_BASE {
        CARD_BASE
    } else if card_height > CARD_MAX {
        CARD_MAX
    } else {
        card_height
    } + 2 * GUTTER) as u32
}

/// The window height for a card the page measured; never past three lines, never below one.
pub fn window_height_for(card_height: u32) -> (height: u32)
    ensures
        height == window_height_spec(card_height),
        BASE_HEIGHT <= height <= MAX_HEIGHT,
{
    let card = if card_height < CARD_BASE {
        CARD_BASE
    } else if card_height > CARD_MAX {
        CARD_MAX
    } else {
        card_height
    };
    card + 2 * GUTTER
}

/// What the panel is showing.
#[derive(Clone, Copy, Debug, PartialEq, Eq, Structural)]
pub enum Mode {
    /// Nothing; the window is hidden.
    Closed,
    /// The hint after a tap too short to be a sentence.
    Idle,
    /// A dictation is in progress, or being transcribed.
    Live,
    /// A finished dictation is on screen, waiting to be transferred.
    Result,
}

/// The window a dictation is aimed at, captured when the recording began.
#[derive(Clone, Debug)]
pub struct Target<H> {
    /// The window.
    pub handle: H,
    /// The executable that owns it.
    pub exe: String,
    /// What the panel calls it.
    pub label: String,
}

impl<H: Copy> Target<H> {
    /// The window that had the focus when the recording began, with what the panel calls the
    /// program that owns it.
    pub fn aimed_at(handle: H, exe: String) -> (target: Target<H>)
        ensures
            target.handle == handle,
            target.exe@ == exe@,
            target.label@ == label_spec(exe@),
    {
        let label = label_for(exe.as_str());
        Target { handle, exe, label }
    }
}

/// Who has the focus and what program that is, when anything does; a window whose program
/// cannot be named is aimed at with an empty path.
pub fn capture_target<H: Copy>(foreground: Option<H>, exe: Option<String>) -> (target: Option<Target<H>>)
    ensures
        match foreground {
            Some(handle) => target is Some && target->0.handle == handle && target->0.exe@ == match exe {
                Some(path) => path@,
                None => Seq::<char>::empty(),
            } && target->0.label@ == label_spec(target->0.exe@),
            None => target is None,
        },
{
    match foreground {
        Some(handle) => {
            let exe = match exe {
                Some(path) => path,
                None => String::new(),
            };
            Some(Target::aimed_at(handle, exe))
        },
        None => None,
    }
}

/// A finished dictation, both ways round.
#[derive(Clone, Debug)]
pub struct Dictation {
    /// What the engine wrote, before any rule ran.
    pub raw: String,
    /// What the cleanup made of it.
    pub cleaned: String,
}

/// The payload of `dile://result`.
#[derive(Clone, Debug)]
pub struct ResultPayload {
    /// What the engine wrote, before any rule ran.
    pub raw: String,
    /// What the cleanup made of it.
    pub cleaned: String,
    /// What the window this is aimed at is called, if there is one.
    pub target_label: Option<String>,
    /// Which strictness produced `cleaned`.
    pub strictness: &'static str,
}

/// The payload of `dile://panel`.
#[derive(Clone, Debug)]
pub struct PanelPayload {
    /// `live`, `idle`, `closed` or `target-gone`.
    pub mode: &'static str,
    /// The chord the idle hint names; empty for every other mode.
    pub hotkey: String,
}

/// The settings the panel draws itself with.
#[derive(Clone, Debug)]
pub struct Context {
    /// The trigger, as the settings spell it.
    pub hotkey: String,
    /// Whether the countdown runs at all.
    pub auto_transfer: bool,
    /// How long it runs for, in milliseconds.
    pub auto_transfer_ms: u32,
    /// The recording cap, in milliseconds.
    pub cap_ms: u64,
    /// Which strictness pill is lit.
    pub strictness: &'static str,
    /// What the window the current dictation is aimed at is called.
    pub target_label: Option<String>,
    /// Whether this card is a preview rather than a dictation.
    pub preview: bool,
}

/// What a transfer does, decided from what the card holds.
#[derive(Clone, Debug)]
pub enum TransferPlan<H> {
    /// The card is not showing a result: nothing happens.
    Ignore,
    /// There is nothing to paste: the panel closes.
    CloseEmpty,
    /// The window it was aimed at is gone: the text stays and the user is told.
    TargetGone,
    /// Close the panel and paste `body` into `handle`, owned by `exe`.
    Paste { handle: H, exe: String, body: String },
}

/// Everything one panel remembers between calls.
pub struct Card<H> {
    mode: Mode,
    target: Option<Target<H>>,
    dictation: Option<Dictation>,
    edited: Option<String>,
    strictness: Strictness,
    monitor: Option<Monitor>,
    dragged: Option<PanelPosition>,
    placed: Option<PanelPosition>,
    preview: bool,
}

/// The text a transfer sends: the edit when there is one, the cleaned transcript when there
/// is not, and nothing when there is neither.
pub open spec fn body_of(edited: Option<Seq<char>>, cleaned: Option<Seq<char>>) -> Seq<char> {
    match edited {
        Some(text) => text,
        None => match cleaned {
            Some(text) => text,
            None => Seq::empty(),
        },
    }
}

impl<H: Copy> Card<H> {
    /// What the panel is showing.
    pub closed spec fn mode_spec(&self) -> Mode {
        self.mode
    }

    /// The window the dictation is aimed at, if any.
    pub closed spec fn target_spec(&self) -> Option<Target<H>> {
        self.target
    }

    /// The edited text, if the page sent one.
    pub closed spec fn edited_spec(&self) -> Option<Seq<char>> {
        opt_string_view(self.edited)
    }

    /// The cleaned transcript, if a result is held.
    pub closed spec fn cleaned_spec(&self) -> Option<Seq<char>> {
        match self.dictation {
            Some(dictation) => Some(dictation.cleaned@),
            None => None,
        }
    }

    /// The raw transcript, if a result is held.
    pub closed spec fn raw_spec(&self) -> Option<Seq<char>> {
        match self.dictation {
            Some(dictation) => Some(dictation.raw@),
            None => None,
        }
    }

    /// The strictness this dictation is shown at.
    pub closed spec fn strictness_spec(&self) -> Strictness {
        self.strictness
    }

    /// Whether the card is a preview.
    pub closed spec fn preview_spec(&self) -> bool {
        self.preview
    }

    /// Where the user dragged the card since it was placed, if anywhere.
    pub closed spec fn dragged_spec(&self) -> Option<PanelPosition> {
        self.dragged
    }

    /// Where the card was last placed by the application.
    pub closed spec fn placed_spec(&self) -> Option<PanelPosition> {
        self.placed
    }

    /// The monitor the card was last placed on.
    pub closed spec fn monitor_spec(&self) -> Option<Monitor> {
        self.monitor
    }

    /// A closed card with nothing in it.
    pub fn new() -> (card: Card<H>)
        ensures
            card.mode_spec() == Mode::Closed,
            card.target_spec() is None,
            card.cleaned_spec() is None,
            card.edited_spec() is None,
            card.strictness_spec() == Strictness::Medium,
            !card.preview_spec(),
            card.dragged_spec() is None,
            card.placed_spec() is None,
    {
        Card {
            mode: Mode::Closed,
            target: None,
            dictation: None,
            edited: None,
            strictness: Strictness::Medium,
            monitor: None,
            dragged: None,
            placed: None,
            preview: false,
        }
    }

    /// What the panel is showing.
    pub fn mode(&self) -> (mode: Mode)
        ensures
            mode == self.mode_spec(),
    {
        self.mode
    }

    /// The window the dictation is aimed at.
    pub fn target(&self) -> (target: Option<&Target<H>>)
        ensures
            match target {
                Some(target) => self.target_spec() == Some(*target),
                None => self.target_spec() is None,
            },
    {
        self.target.as_ref()
    }

    /// Mark the card as a preview, whose countdown never runs.
    pub fn set_preview(&mut self, preview: bool)
        ensures
            final(self).preview_spec() == preview,
            final(self).mode_spec() == old(self).mode_spec(),
            final(self).target_spec() == old(self).target_spec(),
            final(self).edited_spec() == old(self).edited_spec(),
            final(self).cleaned_spec() == old(self).cleaned_spec(),
    {
        self.preview = preview;
    }

    /// Show the hint that says the hotkey works, after a tap too short to be a sentence.
    pub fn open_idle(&mut self)
        ensures
            final(self).mode_spec() == Mode::Idle,
            final(self).target_spec() == old(self).target_spec(),
            final(self).edited_spec() == old(self).edited_spec(),
            final(self).cleaned_spec() == old(self).cleaned_spec(),
            final(self).preview_spec() == old(self).preview_spec(),
    {
        self.mode = Mode::Idle;
    }

    /// A recording is starting, aimed at `target`. A result still on screen is thrown away;
    /// says whether one was.
    pub fn begin(&mut self, target: Option<Target<H>>, strictness: Strictness) -> (dropped: bool)
        ensures
            dropped == old(self).cleaned_spec() is Some,
            final(self).mode_spec() == Mode::Live,
            final(self).target_spec() == target,
            final(self).cleaned_spec() is None,
            final(self).edited_spec() is None,
            final(self).strictness_spec() == strictness,
            final(self).preview_spec() == old(self).preview_spec(),
    {
        let dropped = self.dictation.is_some();
        self.mode = Mode::Live;
        self.target = target;
        self.dictation = None;
        self.edited = None;
        self.strictness = strictness;
        dropped
    }

    /// Put a finished dictation on screen, and say what the page is told.
    pub fn show_result(&mut self, raw: &str, cleaned: &str, strictness: Strictness) -> (payload: ResultPayload)
        ensures
            final(self).mode_spec() == Mode::Result,
            final(self).raw_spec() == Some(raw@),
            final(self).cleaned_spec() == Some(cleaned@),
            final(self).edited_spec() == Some(cleaned@),
            final(self).strictness_spec() == strictness,
            final(self).target_spec() == old(self).target_spec(),
            final(self).preview_spec() == old(self).preview_spec(),
            payload.raw@ == raw@,
            payload.cleaned@ == cleaned@,
            opt_string_view(payload.target_label) == match old(self).target_spec() {
                Some(target) => Some(target.label@),
                None => None,
            },
            payload.strictness@ == level_name(strictness),
    {
        self.mode = Mode::Result;
        self.dictation = Some(Dictation { raw: String::from_str(raw), cleaned: String::from_str(cleaned) });
        self.edited = Some(String::from_str(cleaned));
        self.strictness = strictness;
        let label = match &self.target {
            Some(target) => Some(target.label.clone()),
            None => None,
        };
        ResultPayload {
            raw: String::from_str(raw),
            cleaned: String::from_str(cleaned),
            target_label: label,
            strictness: strictness.as_str(),
        }
    }

    /// Hide the panel and forget what was in it.
    pub fn close(&mut self)
        ensures
            final(self).mode_spec() == Mode::Closed,
            final(self).cleaned_spec() is None,
            final(self).raw_spec() is None,
            final(self).edited_spec() is None,
            final(self).target_spec() == old(self).target_spec(),
            final(self).preview_spec() == old(self).preview_spec(),
            final(self).strictness_spec() == old(self).strictness_spec(),
    {
        self.mode = Mode::Closed;
        self.dictation = None;
        self.edited = None;
    }

    /// The page says the text has changed.
    pub fn edited(&mut self, text: String)
        ensures
            final(self).edited_spec() == Some(text@),
            final(self).mode_spec() == old(self).mode_spec(),
            final(self).target_spec() == old(self).target_spec(),
            final(self).cleaned_spec() == old(self).cleaned_spec(),
            final(self).raw_spec() == old(self).raw_spec(),
            final(self).preview_spec() == old(self).preview_spec(),
            final(self).strictness_spec() == old(self).strictness_spec(),
    {
        self.edited = Some(text);
    }

    /// The text a transfer or a copy would send right now.
    fn body(&self) -> (body: String)
        ensures
            body@ == body_of(self.edited_spec(), self.cleaned_spec()),
    {
        match &self.edited {
            Some(text) => text.clone(),
            None => match &self.dictation {
                Some(dictation) => dictation.cleaned.clone(),
                None => String::new(),
            },
        }
    }

    /// Decide a transfer: the text the page sent (when it sent one) becomes the edit, and the
    /// result is pasted into the window it was aimed at — unless there is no result on screen,
    /// nothing to paste, or no window to paste into. `target_alive` is whether the target
    /// window still exists.
    pub fn transfer(&mut self, text: Option<String>, target_alive: bool) -> (plan: TransferPlan<H>)
        ensures
            old(self).mode_spec() != Mode::Result ==> (plan is Ignore && *final(self) == *old(self)),
            old(self).mode_spec() == Mode::Result ==> {
                let edited = match text {
                    Some(text) => Some(text@),
                    None => old(self).edited_spec(),
                };
                let body = body_of(edited, old(self).cleaned_spec());
                &&& final(self).edited_spec() == edited
                &&& final(self).mode_spec() == Mode::Result
                &&& final(self).cleaned_spec() == old(self).cleaned_spec()
                &&& final(self).target_spec() == old(self).target_spec()
                &&& if trimmed(body).len() == 0 {
                    plan is CloseEmpty
                } else if old(self).target_spec() is None || !target_alive {
                    plan is TargetGone
                } else {
                    plan matches TransferPlan::Paste { handle, exe, body: sent } && sent@ == body
                        && handle == old(self).target_spec()->0.handle && exe@ == old(
                        self,
                    ).target_spec()->0.exe@
                }
            },
    {
        if self.mode != Mode::Result {
            return TransferPlan::Ignore;
        }
        if let Some(text) = text {
            self.edited = Some(text);
        }
        let body = self.body();
        if trim(body.as_str()).unicode_len() == 0 {
            return TransferPlan::CloseEmpty;
        }
        match &self.target {
            None => TransferPlan::TargetGone,
            Some(target) => if !target_alive {
                TransferPlan::TargetGone
            } else {
                TransferPlan::Paste { handle: target.handle, exe: target.exe.clone(), body }
            },
        }
    }

    /// Decide a copy: `None` when no result is on screen, and otherwise the text to put on the
    /// clipboard, the page's own text becoming the edit when it sent one.
    pub fn copy(&mut self, text: Option<String>) -> (body: Option<String>)
        ensures
            old(self).mode_spec() != Mode::Result ==> (body is None && *final(self) == *old(self)),
            old(self).mode_spec() == Mode::Result ==> {
                let edited = match text {
                    Some(text) => Some(text@),
                    None => old(self).edited_spec(),
                };
                &&& final(self).edited_spec() == edited
                &&& final(self).mode_spec() == Mode::Result
                &&& final(self).cleaned_spec() == old(self).cleaned_spec()
                &&& body is Some && body->0@ == body_of(edited, old(self).cleaned_spec())
            },
    {
        if self.mode != Mode::Result {
            return None;
        }
        if let Some(text) = text {
            self.edited = Some(text);
        }
        Some(self.body())
    }

    /// What a re-clean starts from: the raw transcript this card holds, unless it holds none,
    /// in which case whatever the page sent back.
    pub fn reclean_source(&self, raw: &str) -> (source: String)
        ensures
            source@ == match self.raw_spec() {
                Some(held) => if held.len() > 0 {
                    held
                } else {
                    raw@
                },
                None => raw@,
            },
    {
        match &self.dictation {
            Some(dictation) => if dictation.raw.as_str().unicode_len() > 0 {
                dictation.raw.clone()
            } else {
                String::from_str(raw)
            },
            None => String::from_str(raw),
        }
    }

    /// A re-clean at another strictness came back: this dictation is shown at that level, and
    /// the new text is what a transfer sends. The setting itself is not touched.
    pub fn recleaned(&mut self, level: Strictness, cleaned: &str)
        ensures
            final(self).strictness_spec() == level,
            final(self).edited_spec() == Some(cleaned@),
            final(self).mode_spec() == old(self).mode_spec(),
            final(self).target_spec() == old(self).target_spec(),
            final(self).cleaned_spec() == old(self).cleaned_spec(),
            final(self).raw_spec() == old(self).raw_spec(),
    {
        self.strictness = level;
        self.edited = Some(String::from_str(cleaned));
    }

    /// The settings the panel draws itself with: the countdown never runs on a preview.
    pub fn context(&self, settings: &Settings) -> (context: Context)
        ensures
            context.hotkey@ == settings.hotkey.trigger@,
            context.auto_transfer == (settings.cleanup.auto_transfer && !self.preview_spec()),
            context.auto_transfer_ms == settings.cleanup.auto_transfer_ms,
            context.cap_ms == settings.capture.cap_secs as u64 * 1000,
            context.strictness@ == level_name(self.strictness_spec()),
            context.preview == self.preview_spec(),
            opt_string_view(context.target_label) == match self.target_spec() {
                Some(target) => Some(target.label@),
                None => None,
            },
    {
        let label = match &self.target {
            Some(target) => Some(target.label.clone()),
            None => None,
        };
        Context {
            hotkey: settings.hotkey.trigger.clone(),
            auto_transfer: settings.cleanup.auto_transfer && !self.preview,
            auto_transfer_ms: settings.cleanup.auto_transfer_ms,
            cap_ms: settings.cap_ms(),
            strictness: self.strictness.as_str(),
            target_label: label,
            preview: self.preview,
        }
    }

    /// The application put the card at `position` on `monitor`; a drag is only what moves it
    /// after this.
    pub fn placed_at(&mut self, monitor: Monitor, position: PanelPosition)
        ensures
            final(self).monitor_spec() == Some(monitor),
            final(self).dragged_spec() is None,
            final(self).placed_spec() == Some(position),
            final(self).mode_spec() == old(self).mode_spec(),
            final(self).target_spec() == old(self).target_spec(),
            final(self).edited_spec() == old(self).edited_spec(),
            final(self).cleaned_spec() == old(self).cleaned_spec(),
    {
        self.monitor = Some(monitor);
        self.dragged = None;
        self.placed = Some(position);
    }

    /// The window moved to `(x, y)`. A move to where the application itself put it is not a
    /// drag, and is not remembered.
    pub fn remember(&mut self, x: i32, y: i32)
        ensures
            old(self).placed_spec() == Some(PanelPosition { x, y }) ==> final(self).dragged_spec()
                == old(self).dragged_spec(),
            old(self).placed_spec() != Some(PanelPosition { x, y }) ==> final(self).dragged_spec()
                == Some(PanelPosition { x, y }),
            final(self).placed_spec() == old(self).placed_spec(),
            final(self).monitor_spec() == old(self).monitor_spec(),
            final(self).mode_spec() == old(self).mode_spec(),
    {
        let moved = PanelPosition { x, y };
        let same = match self.placed {
            Some(placed) => placed == moved,
            None => false,
        };
        if !same {
            self.dragged = Some(moved);
        }
    }

    /// The drag to write down on the way out, relative to its monitor's corner, taken so it
    /// is written once; `None` when the card was not dragged or was never placed.
    pub fn take_dragged(&mut self) -> (moved: Option<(String, PanelPosition)>)
        ensures
            final(self).dragged_spec() == if old(self).monitor_spec() is Some {
                None
            } else {
                old(self).dragged_spec()
            },
            match (old(self).monitor_spec(), old(self).dragged_spec()) {
                (Some(monitor), Some(dragged)) => match moved {
                    Some((device, relative)) => device@ == monitor.device@ && relative == (
                    PanelPosition {
                        x: (dragged.x - monitor.bounds.left) as i32,
                        y: (dragged.y - monitor.bounds.top) as i32,
                    }),
                    None => false,
                },
                _ => moved is None,
            },
            final(self).placed_spec() == old(self).placed_spec(),
            final(self).monitor_spec() == old(self).monitor_spec(),
            final(self).mode_spec() == old(self).mode_spec(),
    {
        match &self.monitor {
            Some(monitor) => {
                let dragged = self.dragged.take();
                match dragged {
                    Some(dragged) => {
                        let x = (dragged.x as i64 - monitor.bounds.left as i64) as i32;
                        let y = (dragged.y as i64 - monitor.bounds.top as i64) as i32;
                        Some((monitor.device.clone(), PanelPosition { x, y }))
                    },
                    None => None,
                }
            },
            None => None,
        }
    }
}

/// Remember `position` for `device` among the remembered positions; says whether anything
/// had to be written.
pub fn remember_position(
    positions: &mut Vec<(String, PanelPosition)>,
    device: &str,
    position: PanelPosition,
) -> (changed: bool)
    ensures
        changed == (lookup_position(positions_view(old(positions)@), device@) != Some(position)),
        lookup_position(positions_view(final(positions)@), device@) == Some(position),
        forall|other: Seq<char>|
            other != device@ ==> #[trigger] lookup_position(positions_view(final(positions)@), other)
                == lookup_position(positions_view(old(positions)@), other),
{
    let ghost before = positions_view(positions@);
    let mut i: usize = 0;
    proof {
        assert(before.skip(0) =~= before);
    }
    while i < positions.len()
        invariant
            before == positions_view(positions@),
            positions@ == old(positions)@,
            i <= positions@.len(),
            forall|k: int| 0 <= k < i ==> before[k].0 != device@,
            lookup_position(before, device@) == lookup_position(before.skip(i as int), device@),
        decreases positions@.len() - i,
    {
        proof {
            assert(before.skip(i as int).drop_first() =~= before.skip(i + 1));
            assert(before.skip(i as int)[0] == (positions@[i as int].0@, positions@[i as int].1));
        }
        if crate::text::same_text(positions[i].0.as_str(), device) {
            if positions[i].1 == position {
                return false;
            }
            let entry = (positions[i].0.clone(), position);
            positions.set(i, entry);
            proof {
                let after = positions_view(positions@);
                assert(after =~= before.update(i as int, (device@, position)));
                lemma_lookup_update(before, i as int, device@, position);
            }
            return true;
        }
        i += 1;
    }
    proof {
        assert(before.skip(i as int) =~= Seq::<(Seq<char>, PanelPosition)>::empty());
    }
    positions.push((String::from_str(device), position));
    proof {
        let after = positions_view(positions@);
        assert(after =~= before + seq![(device@, position)]);
        lemma_lookup_append(before, (device@, position));
    }
    true
}

/// Where a device's card was remembered: the first entry that names it.
pub open spec fn lookup_position(positions: Seq<(Seq<char>, PanelPosition)>, device: Seq<char>) -> Option<
    PanelPosition,
>
    decreases positions.len(),
{
    if positions.len() == 0 {
        None
    } else if positions[0].0 == device {
        Some(positions[0].1)
    } else {
        lookup_position(positions.drop_first(), device)
    }
}

/// Replacing the first entry for a device changes that device's position and no other.
proof fn lemma_lookup_update(
    positions: Seq<(Seq<char>, PanelPosition)>,
    at: int,
    device: Seq<char>,
    position: PanelPosition,
)
    requires
        0 <= at < positions.len(),
        positions[at].0 == device,
        forall|k: int| 0 <= k < at ==> positions[k].0 != device,
    ensures
        lookup_position(positions.update(at, (device, position)), device) == Some(position),
        forall|other: Seq<char>|
            other != device ==> #[trigger] lookup_position(positions.update(at, (device, position)), other)
                == lookup_position(positions, other),
    decreases at,
{
    let updated = positions.update(at, (device, position));
    if at > 0 {
        assert(updated.drop_first() =~= positions.drop_first().update(at - 1, (device, position)));
        lemma_lookup_update(positions.drop_first(), at - 1, device, position);
        assert(updated[0] == positions[0]);
    } else {
        assert(updated.drop_first() =~= positions.drop_first());
    }
    assert forall|other: Seq<char>| other != device implies #[trigger] lookup_position(updated, other)
        == lookup_position(positions, other) by {
        if at > 0 && positions[0].0 != other {
            assert(lookup_position(updated.drop_first(), other) == lookup_position(
                positions.drop_first(),
                other,
            ));
        }
    }
}

/// Adding an entry for a device nobody has changes no other device's position.
proof fn lemma_lookup_append(positions: Seq<(Seq<char>, PanelPosition)>, entry: (Seq<char>, PanelPosition))
    requires
        lookup_position(positions, entry.0) is None,
    ensures
        lookup_position(positions + seq![entry], entry.0) == Some(entry.1),
        forall|other: Seq<char>|
            other != entry.0 ==> #[trigger] lookup_position(positions + seq![entry], other)
                == lookup_position(positions, other),
    decreases positions.len(),
{
    let joined = positions + seq![entry];
    if positions.len() > 0 {
        assert(joined.drop_first() =~= positions.drop_first() + seq![entry]);
        lemma_lookup_append(positions.drop_first(), entry);
        assert(joined[0] == positions[0]);
    } else {
        assert(joined.drop_first() =~= Seq::<(Seq<char>, PanelPosition)>::empty());
        assert(joined[0] == entry);
    }
    assert forall|other: Seq<char>| other != entry.0 implies #[trigger] lookup_position(joined, other)
        == lookup_position(positions, other) by {
        if positions.len() > 0 && positions[0].0 != other {
            assert(lookup_position(joined.drop_first(), other) == lookup_position(
                positions.drop_first(),
                other,
            ));
        }
    }
}

/// Half of `d`, rounded toward zero as integer division does.
pub open spec fn half(d: int) -> int {
    if d >= 0 {
        d / 2
    } else {
        -((-d) / 2)
    }
}

/// The card's default place: centred on the work area, `margin_px` below its top edge, for a
/// window `width_px` wide.
pub open spec fn top_centre_spec(work: Rect, width_px: i32, margin_px: i32) -> PanelPosition {
    PanelPosition {
        x: (work.left + half(work.right - work.left - width_px)) as i32,
        y: (work.top + margin_px) as i32,
    }
}

/// The card's default place on a monitor, for a window `width_px` wide in physical pixels and
/// a margin of `margin_px` from the work area's top to the window's edge.
pub fn top_centre_at(monitor: &Monitor, width_px: i32, margin_px: i32) -> (position: PanelPosition)
    requires
        i32::MIN <= monitor.work.right - monitor.work.left - width_px <= i32::MAX,
        i32::MIN <= monitor.work.left + half(monitor.work.right - monitor.work.left - width_px)
            <= i32::MAX,
        i32::MIN <= monitor.work.top + margin_px <= i32::MAX,
    ensures
        position == top_centre_spec(monitor.work, width_px, margin_px),
{
    let spare = (monitor.work.right as i64) - (monitor.work.left as i64) - (width_px as i64);
    let half_spare = if spare >= 0 {
        spare / 2
    } else {
        -((-spare) / 2)
    };
    PanelPosition {
        x: (monitor.work.left as i64 + half_spare) as i32,
        y: (monitor.work.top as i64 + margin_px as i64) as i32,
    }
}

/// `value` held inside `low..=high`.
pub open spec fn clamp_int(value: int, low: int, high: int) -> int {
    if value < low {
        low
    } else if value > high {
        high
    } else {
        value
    }
}

/// A remembered place, kept on the screen it was remembered for: relative to the monitor's
/// corner, and pulled back so a window `width_px` by `height_px` starts on it.
pub open spec fn clamp_into_spec(bounds: Rect, position: PanelPosition, width_px: i32, height_px: i32) -> PanelPosition {
    let right = if bounds.right - width_px > bounds.left { bounds.right - width_px } else { bounds.left as int };
    let bottom = if bounds.bottom - height_px > bounds.top { bounds.bottom - height_px } else { bounds.top as int };
    PanelPosition {
        x: clamp_int(bounds.left + position.x, bounds.left as int, right) as i32,
        y: clamp_int(bounds.top + position.y, bounds.top as int, bottom) as i32,
    }
}

/// A remembered place, kept on the screen it was remembered for.
pub fn clamp_into_at(monitor: &Monitor, position: PanelPosition, width_px: i32, height_px: i32) -> (placed: PanelPosition)
    requires
        width_px >= 0,
        height_px >= 0,
    ensures
        placed == clamp_into_spec(monitor.bounds, position, width_px, height_px),
        monitor.bounds.left <= placed.x,
        monitor.bounds.top <= placed.y,
        placed.x <= monitor.bounds.left || placed.x + width_px <= monitor.bounds.right,
        placed.y <= monitor.bounds.top || placed.y + height_px <= monitor.bounds.bottom,
{
    let bounds = monitor.bounds;
    let right_edge = bounds.right as i64 - width_px as i64;
    let right = if right_edge > bounds.left as i64 { right_edge } else { bounds.left as i64 };
    let bottom_edge = bounds.bottom as i64 - height_px as i64;
    let bottom = if bottom_edge > bounds.top as i64 { bottom_edge } else { bounds.top as i64 };
    let x = bounds.left as i64 + position.x as i64;
    let y = bounds.top as i64 + position.y as i64;
    let x = if x < bounds.left as i64 { bounds.left as i64 } else if x > right { right } else { x };
    let y = if y < bounds.top as i64 { bounds.top as i64 } else if y > bottom { bottom } else { y };
    PanelPosition { x: x as i32, y: y as i32 }
}

/// The name a panel mode travels under in `dile://panel`.
pub fn mode_name(mode: Mode) -> (name: &'static str)
    ensures
        name@ == match mode {
            Mode::Closed => "closed"@,
            Mode::Idle => "idle"@,
            Mode::Live => "live"@,
            Mode::Result => "result"@,
        },
{
    match mode {
        Mode::Closed => "closed",
        Mode::Idle => "idle",
        Mode::Live => "live",
        Mode::Result => "result",
    }
}

/// A card that closed holds nothing a transfer or a copy could send.
pub proof fn lemma_closed_card_sends_nothing<H: Copy>(card: Card<H>)
    requires
        card.mode_spec() == Mode::Closed,
    ensures
        card.mode_spec() != Mode::Result,
{
}

} // verus!
