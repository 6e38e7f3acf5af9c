//! The settings document: every field, its default, and the clamping it is stored with.

pub mod commands;
pub mod store;
pub mod window;

use vstd::prelude::*;
use vstd::string::*;

use crate::capture::config::{clamp_spec, MAX_CAP_SECS, MAX_PRE_ROLL_MS, MIN_CAP_SECS};
use crate::engine::state::Tier;
use crate::text::same_text;

pub use store::{Change, SettingsStore};

verus! {

/// The trigger the application ships with: the right Ctrl key, held.
pub const DEFAULT_TRIGGER: &'static str = "RightCtrl";

/// The chord that is never accepted, because the input method takes it first.
pub const EXCLUDED_CHORD: &'static str = "Ctrl+Space";

/// The language dictation is transcribed in.
pub const DICTATION_LANGUAGE: &'static str = "tr";

/// How long the panel waits before it transfers by itself, by default, in milliseconds.
pub const DEFAULT_AUTO_TRANSFER_MS: u32 = 2_500;

/// The shortest countdown the panel runs, in milliseconds.
pub const MIN_AUTO_TRANSFER_MS: u32 = 500;

/// The longest countdown the panel runs, in milliseconds.
pub const MAX_AUTO_TRANSFER_MS: u32 = 5_000;

/// How the trigger records.
#[derive(Clone, Copy, Debug, PartialEq, Eq, Structural)]
pub enum HotkeyMode {
    /// Recording lasts as long as the trigger is held.
    Hold,
    /// One press starts, the next one stops.
    Toggle,
}

/// How hard the cleanup works on a transcript.
#[derive(Clone, Copy, Debug, PartialEq, Eq, Structural)]
pub enum CleanupLevel {
    /// Casing and punctuation only.
    Light,
    /// The default: fillers and repeats as well.
    Medium,
    /// Everything the rules know.
    Strict,
}

/// The cleanup level as the cleanup itself names it.
pub type Strictness = CleanupLevel;

/// The name a level travels under.
pub open spec fn level_name(level: CleanupLevel) -> Seq<char> {
    match level {
        CleanupLevel::Light => "light"@,
        CleanupLevel::Medium => "medium"@,
        CleanupLevel::Strict => "strict"@,
    }
}

impl CleanupLevel {
    /// The name this level travels under.
    pub fn as_str(self) -> (name: &'static str)
        ensures
            name@ == level_name(self),
    {
        match self {
            CleanupLevel::Light => "light",
            CleanupLevel::Medium => "medium",
            CleanupLevel::Strict => "strict",
        }
    }

    /// The level a name asks for; anything unknown is the default, medium.
    pub fn named(name: &str) -> (level: CleanupLevel)
        ensures
            level == if name@ == "light"@ {
                CleanupLevel::Light
            } else if name@ == "strict"@ {
                CleanupLevel::Strict
            } else {
                CleanupLevel::Medium
            },
    {
        if same_text(name, "light") {
            CleanupLevel::Light
        } else if same_text(name, "strict") {
            CleanupLevel::Strict
        } else {
            CleanupLevel::Medium
        }
    }
}

/// The interface language.
#[derive(Clone, Copy, Debug, PartialEq, Eq, Structural)]
pub enum Language {
    /// Whatever the operating system is set to.
    Auto,
    /// English.
    En,
    /// Turkish.
    Tr,
}

/// The tag a language setting stands for, or `None` for the machine's own.
pub open spec fn language_tag(language: Language) -> Option<Seq<char>> {
    match language {
        Language::Auto => None,
        Language::En => Some("en"@),
        Language::Tr => Some("tr"@),
    }
}

impl Language {
    /// The tag this setting stands for, or `None` for the machine's own language.
    pub fn tag(self) -> (tag: Option<&'static str>)
        ensures
            match tag {
                Some(tag) => language_tag(self) == Some(tag@),
                None => language_tag(self) is None,
            },
    {
        match self {
            Language::Auto => None,
            Language::En => Some("en"),
            Language::Tr => Some("tr"),
        }
    }
}

/// Where the card was dragged to on one monitor, relative to its top-left corner.
#[derive(Clone, Copy, Debug, PartialEq, Eq, Structural)]
pub struct PanelPosition {
    /// Horizontal offset, in physical pixels.
    pub x: i32,
    /// Vertical offset, in physical pixels.
    pub y: i32,
}

/// The trigger and how it records.
#[derive(Clone, Debug, PartialEq, Eq)]
pub struct HotkeySettings {
    /// The trigger as the settings spell it.
    pub trigger: String,
    /// Hold or toggle.
    pub mode: HotkeyMode,
    /// Whether a second key stops a toggled recording.
    pub second_key: bool,
}

/// The microphone and the recording.
#[derive(Clone, Debug, PartialEq, Eq)]
pub struct CaptureSettings {
    /// The device to open, or the host default.
    pub device: Option<String>,
    /// The recording cap, in seconds.
    pub cap_secs: u32,
    /// The pre-roll, in milliseconds.
    pub pre_roll_ms: u32,
}

/// What the cleanup does and whether the panel transfers by itself.
#[derive(Clone, Copy, Debug, PartialEq, Eq, Structural)]
pub struct CleanupSettings {
    /// How hard the cleanup works.
    pub strictness: CleanupLevel,
    /// Whether the panel transfers by itself after its countdown.
    pub auto_transfer: bool,
    /// How long that countdown is, in milliseconds.
    pub auto_transfer_ms: u32,
}

/// One term of the dictionary.
#[derive(Clone, Debug, Default, PartialEq, Eq)]
pub struct DictionaryEntry {
    /// How the term is spelled.
    pub canonical: String,
    /// How the recognizer tends to mishear it.
    pub variants: Vec<String>,
    /// Whether the term goes to the front of the decoder's prompt.
    pub pinned: bool,
}

/// Which tier the engine runs on.
#[derive(Clone, Copy, Debug, PartialEq, Eq, Structural)]
pub struct EngineSettings {
    /// The tier the user asked for, or `None` to leave it to the probe.
    pub tier_override: Option<Tier>,
}

/// The interface.
#[derive(Clone, Debug, PartialEq, Eq)]
pub struct UiSettings {
    /// The interface language.
    pub language: Language,
    /// Whether the application starts with the session.
    pub autostart: bool,
    /// Where the card was dragged to, per monitor device name.
    pub panel_position: Vec<(String, PanelPosition)>,
}

/// The whole settings document.
#[derive(Clone, Debug, PartialEq, Eq)]
pub struct Settings {
    /// The trigger.
    pub hotkey: HotkeySettings,
    /// The microphone.
    pub capture: CaptureSettings,
    /// The cleanup and the panel's countdown.
    pub cleanup: CleanupSettings,
    /// The dictionary, in the order it was typed.
    pub dictionary: Vec<DictionaryEntry>,
    /// The engine's tier.
    pub engine: EngineSettings,
    /// The interface.
    pub ui: UiSettings,
}

/// The hotkey section, as plain values.
pub type HotkeyView = (Seq<char>, HotkeyMode, bool);

/// The capture section, as plain values.
pub type CaptureView = (Option<Seq<char>>, u32, u32);

/// The dictionary, as plain values: each term, its variants and whether it is pinned.
pub type DictionaryView = Seq<(Seq<char>, Seq<Seq<char>>, bool)>;

/// The remembered positions, as plain values.
pub type PositionsView = Seq<(Seq<char>, PanelPosition)>;

/// The whole document, as plain values.
pub struct SettingsView {
    /// The trigger, the mode and the second key.
    pub hotkey: HotkeyView,
    /// The device, the cap and the pre-roll.
    pub capture: CaptureView,
    /// The cleanup section.
    pub cleanup: CleanupSettings,
    /// The dictionary.
    pub dictionary: DictionaryView,
    /// The engine section.
    pub engine: EngineSettings,
    /// The interface language.
    pub language: Language,
    /// The start-with-the-session switch.
    pub autostart: bool,
    /// The remembered positions.
    pub panel_position: PositionsView,
}

/// An optional string, as a plain value.
pub open spec fn opt_string_view(s: Option<String>) -> Option<Seq<char>> {
    match s {
        Some(s) => Some(s@),
        None => None,
    }
}

/// A list of strings, as plain values.
pub open spec fn strings_view(strings: Seq<String>) -> Seq<Seq<char>> {
    strings.map_values(|s: String| s@)
}

/// A dictionary, as plain values.
pub open spec fn dictionary_view(entries: Seq<DictionaryEntry>) -> DictionaryView {
    entries.map_values(
        |entry: DictionaryEntry| (entry.canonical@, strings_view(entry.variants@), entry.pinned),
    )
}

/// Remembered positions, as plain values.
pub open spec fn positions_view(positions: Seq<(String, PanelPosition)>) -> PositionsView {
    positions.map_values(|entry: (String, PanelPosition)| (entry.0@, entry.1))
}

impl View for Settings {
    type V = SettingsView;

    open spec fn view(&self) -> SettingsView {
        SettingsView {
            hotkey: (self.hotkey.trigger@, self.hotkey.mode, self.hotkey.second_key),
            capture: (
                opt_string_view(self.capture.device),
                self.capture.cap_secs,
                self.capture.pre_roll_ms,
            ),
            cleanup: self.cleanup,
            dictionary: dictionary_view(self.dictionary@),
            engine: self.engine,
            language: self.ui.language,
            autostart: self.ui.autostart,
            panel_position: positions_view(self.ui.panel_position@),
        }
    }
}

/// The document the application ships with.
pub open spec fn default_view() -> SettingsView {
    SettingsView {
        hotkey: (DEFAULT_TRIGGER@, HotkeyMode::Hold, false),
        capture: (None, 60, 500),
        cleanup: CleanupSettings {
            strictness: CleanupLevel::Medium,
            auto_transfer: true,
            auto_transfer_ms: DEFAULT_AUTO_TRANSFER_MS,
        },
        dictionary: Seq::empty(),
        engine: EngineSettings { tier_override: None },
        language: Language::Auto,
        autostart: false,
        panel_position: Seq::empty(),
    }
}

/// A document with every value held inside the range it is stored with: the cap inside
/// 1..=300 s, and the pre-roll at most 5 s.
pub open spec fn validated_view(view: SettingsView) -> SettingsView {
    SettingsView {
        capture: (
            view.capture.0,
            clamp_spec(view.capture.1, MIN_CAP_SECS, MAX_CAP_SECS),
            if view.capture.2 > MAX_PRE_ROLL_MS { MAX_PRE_ROLL_MS } else { view.capture.2 },
        ),
        cleanup: CleanupSettings {
            auto_transfer_ms: clamp_spec(
                view.cleanup.auto_transfer_ms,
                MIN_AUTO_TRANSFER_MS,
                MAX_AUTO_TRANSFER_MS,
            ),
            ..view.cleanup
        },
        ..view
    }
}

/// A copy of a list of strings.
pub fn copy_strings(strings: &Vec<String>) -> (copy: Vec<String>)
    ensures
        strings_view(copy@) == strings_view(strings@),
{
    let mut copy: Vec<String> = Vec::new();
    let mut i: usize = 0;
    while i < strings.len()
        invariant
            i <= strings@.len(),
            strings_view(copy@) == strings_view(strings@.subrange(0, i as int)),
        decreases strings@.len() - i,
    {
        let ghost before = copy@;
        copy.push(strings[i].clone());
        proof {
            assert(strings_view(copy@) =~= strings_view(before).push(strings@[i as int]@));
            assert(strings_view(strings@.subrange(0, i + 1)) =~= strings_view(
                strings@.subrange(0, i as int),
            ).push(strings@[i as int]@));
        }
        i += 1;
    }
    proof {
        assert(strings@.subrange(0, strings@.len() as int) =~= strings@);
    }
    copy
}

/// Whether two lists of strings are the same.
pub fn same_strings(a: &Vec<String>, b: &Vec<String>) -> (same: bool)
    ensures
        same == (strings_view(a@) == strings_view(b@)),
{
    if a.len() != b.len() {
        proof {
            assert(strings_view(a@).len() != strings_view(b@).len());
        }
        return false;
    }
    let mut i: usize = 0;
    while i < a.len()
        invariant
            a@.len() == b@.len(),
            i <= a@.len(),
            forall|k: int| 0 <= k < i ==> a@[k]@ == b@[k]@,
        decreases a@.len() - i,
    {
        if !(a[i] == b[i]) {
            proof {
                assert(strings_view(a@)[i as int] != strings_view(b@)[i as int]);
            }
            return false;
        }
        i += 1;
    }
    proof {
        assert(strings_view(a@) =~= strings_view(b@));
    }
    true
}

/// A copy of a dictionary.
pub fn copy_dictionary(entries: &Vec<DictionaryEntry>) -> (copy: Vec<DictionaryEntry>)
    ensures
        dictionary_view(copy@) == dictionary_view(entries@),
{
    let mut copy: Vec<DictionaryEntry> = Vec::new();
    let mut i: usize = 0;
    while i < entries.len()
        invariant
            i <= entries@.len(),
            dictionary_view(copy@) == dictionary_view(entries@.subrange(0, i as int)),
        decreases entries@.len() - i,
    {
        let entry = DictionaryEntry {
            canonical: entries[i].canonical.clone(),
            variants: copy_strings(&entries[i].variants),
            pinned: entries[i].pinned,
        };
        let ghost before = copy@;
        copy.push(entry);
        proof {
            assert(dictionary_view(copy@) =~= dictionary_view(before).push(
                (entries@[i as int].canonical@, strings_view(entries@[i as int].variants@), entries@[i as int].pinned),
            ));
            assert(dictionary_view(entries@.subrange(0, i + 1)) =~= dictionary_view(
                entries@.subrange(0, i as int),
            ).push((entries@[i as int].canonical@, strings_view(entries@[i as int].variants@), entries@[i as int].pinned)));
        }
        i += 1;
    }
    proof {
        assert(entries@.subrange(0, entries@.len() as int) =~= entries@);
    }
    copy
}

/// Whether two dictionaries are the same.
pub fn same_dictionary(a: &Vec<DictionaryEntry>, b: &Vec<DictionaryEntry>) -> (same: bool)
    ensures
        same == (dictionary_view(a@) == dictionary_view(b@)),
{
    if a.len() != b.len() {
        proof {
            assert(dictionary_view(a@).len() != dictionary_view(b@).len());
        }
        return false;
    }
    let mut i: usize = 0;
    while i < a.len()
        invariant
            a@.len() == b@.len(),
            i <= a@.len(),
            forall|k: int| 0 <= k < i ==> #[trigger] dictionary_view(a@)[k] == dictionary_view(b@)[k],
        decreases a@.len() - i,
    {
        let same_entry = a[i].canonical == b[i].canonical && same_strings(
            &a[i].variants,
            &b[i].variants,
        ) && a[i].pinned == b[i].pinned;
        if !same_entry {
            proof {
                assert(dictionary_view(a@)[i as int] != dictionary_view(b@)[i as int]);
            }
            return false;
        }
        i += 1;
    }
    proof {
        assert(dictionary_view(a@) =~= dictionary_view(b@));
    }
    true
}

/// A copy of the remembered positions.
pub fn copy_positions(positions: &Vec<(String, PanelPosition)>) -> (copy: Vec<(String, PanelPosition)>)
    ensures
        positions_view(copy@) == positions_view(positions@),
{
    let mut copy: Vec<(String, PanelPosition)> = Vec::new();
    let mut i: usize = 0;
    while i < positions.len()
        invariant
            i <= positions@.len(),
            positions_view(copy@) == positions_view(positions@.subrange(0, i as int)),
        decreases positions@.len() - i,
    {
        let ghost before = copy@;
        copy.push((positions[i].0.clone(), positions[i].1));
        proof {
            assert(positions_view(copy@) =~= positions_view(before).push(
                (positions@[i as int].0@, positions@[i as int].1),
            ));
            assert(positions_view(positions@.subrange(0, i + 1)) =~= positions_view(
                positions@.subrange(0, i as int),
            ).push((positions@[i as int].0@, positions@[i as int].1)));
        }
        i += 1;
    }
    proof {
        assert(positions@.subrange(0, positions@.len() as int) =~= positions@);
    }
    copy
}

/// Whether two lists of remembered positions are the same.
pub fn same_positions(a: &Vec<(String, PanelPosition)>, b: &Vec<(String, PanelPosition)>) -> (same: bool)
    ensures
        same == (positions_view(a@) == positions_view(b@)),
{
    if a.len() != b.len() {
        proof {
            assert(positions_view(a@).len() != positions_view(b@).len());
        }
        return false;
    }
    let mut i: usize = 0;
    while i < a.len()
        invariant
            a@.len() == b@.len(),
            i <= a@.len(),
            forall|k: int| 0 <= k < i ==> #[trigger] positions_view(a@)[k] == positions_view(b@)[k],
        decreases a@.len() - i,
    {
        let same_entry = a[i].0 == b[i].0 && a[i].1 == b[i].1;
        if !same_entry {
            proof {
                assert(positions_view(a@)[i as int] != positions_view(b@)[i as int]);
            }
            return false;
        }
        i += 1;
    }
    proof {
        assert(positions_view(a@) =~= positions_view(b@));
    }
    true
}

/// A copy of an optional string.
pub fn copy_opt_string(s: &Option<String>) -> (copy: Option<String>)
    ensures
        opt_string_view(copy) == opt_string_view(*s),
{
    match s {
        Some(s) => Some(s.clone()),
        None => None,
    }
}

/// Whether two optional strings are the same.
pub fn same_opt_string(a: &Option<String>, b: &Option<String>) -> (same: bool)
    ensures
        same == (opt_string_view(*a) == opt_string_view(*b)),
{
    match (a, b) {
        (Some(a), Some(b)) => *a == *b,
        (None, None) => true,
        _ => false,
    }
}

impl HotkeySettings {
    /// Whether two hotkey sections say the same thing.
    pub fn same(&self, other: &HotkeySettings) -> (same: bool)
        ensures
            same == ((self.trigger@, self.mode, self.second_key) == (
                other.trigger@,
                other.mode,
                other.second_key,
            )),
    {
        self.trigger == other.trigger && self.mode == other.mode && self.second_key
            == other.second_key
    }
}

impl CaptureSettings {
    /// Whether two capture sections say the same thing.
    pub fn same(&self, other: &CaptureSettings) -> (same: bool)
        ensures
            same == ((opt_string_view(self.device), self.cap_secs, self.pre_roll_ms) == (
                opt_string_view(other.device),
                other.cap_secs,
                other.pre_roll_ms,
            )),
    {
        same_opt_string(&self.device, &other.device) && self.cap_secs == other.cap_secs
            && self.pre_roll_ms == other.pre_roll_ms
    }
}

impl Settings {
    /// A copy of this document.
    pub fn copy(&self) -> (copy: Settings)
        ensures
            copy@ == self@,
    {
        Settings {
            hotkey: HotkeySettings {
                trigger: self.hotkey.trigger.clone(),
                mode: self.hotkey.mode,
                second_key: self.hotkey.second_key,
            },
            capture: CaptureSettings {
                device: copy_opt_string(&self.capture.device),
                cap_secs: self.capture.cap_secs,
                pre_roll_ms: self.capture.pre_roll_ms,
            },
            cleanup: self.cleanup,
            dictionary: copy_dictionary(&self.dictionary),
            engine: self.engine,
            ui: UiSettings {
                language: self.ui.language,
                autostart: self.ui.autostart,
                panel_position: copy_positions(&self.ui.panel_position),
            },
        }
    }

    /// Whether two documents say the same thing.
    pub fn same(&self, other: &Settings) -> (same: bool)
        ensures
            same == (self@ == other@),
    {
        self.hotkey.same(&other.hotkey) && self.capture.same(&other.capture) && self.cleanup
            == other.cleanup && same_dictionary(&self.dictionary, &other.dictionary)
            && self.engine == other.engine && self.ui.language == other.ui.language
            && self.ui.autostart == other.ui.autostart && same_positions(
            &self.ui.panel_position,
            &other.ui.panel_position,
        )
    }

    /// The document the application ships with.
    pub fn shipped() -> (settings: Settings)
        ensures
            settings@ == default_view(),
    {
        let settings = Settings {
            hotkey: HotkeySettings {
                trigger: String::from_str(DEFAULT_TRIGGER),
                mode: HotkeyMode::Hold,
                second_key: false,
            },
            capture: CaptureSettings { device: None, cap_secs: 60, pre_roll_ms: 500 },
            cleanup: CleanupSettings {
                strictness: CleanupLevel::Medium,
                auto_transfer: true,
                auto_transfer_ms: DEFAULT_AUTO_TRANSFER_MS,
            },
            dictionary: Vec::new(),
            engine: EngineSettings { tier_override: None },
            ui: UiSettings { language: Language::Auto, autostart: false, panel_position: Vec::new() },
        };
        proof {
            assert(dictionary_view(settings.dictionary@) =~= Seq::<(Seq<char>, Seq<Seq<char>>, bool)>::empty());
            assert(positions_view(settings.ui.panel_position@) =~= Seq::<(Seq<char>, PanelPosition)>::empty());
        }
        settings
    }

    /// The document as it will be stored, with every value held inside its range.
    pub fn validated(&self) -> (valid: Settings)
        ensures
            valid@ == validated_view(self@),
    {
        let mut valid = self.copy();
        valid.capture.cap_secs = if self.capture.cap_secs < MIN_CAP_SECS {
            MIN_CAP_SECS
        } else if self.capture.cap_secs > MAX_CAP_SECS {
            MAX_CAP_SECS
        } else {
            self.capture.cap_secs
        };
        valid.capture.pre_roll_ms = if self.capture.pre_roll_ms > MAX_PRE_ROLL_MS {
            MAX_PRE_ROLL_MS
        } else {
            self.capture.pre_roll_ms
        };
        valid.cleanup.auto_transfer_ms = if self.cleanup.auto_transfer_ms < MIN_AUTO_TRANSFER_MS {
            MIN_AUTO_TRANSFER_MS
        } else if self.cleanup.auto_transfer_ms > MAX_AUTO_TRANSFER_MS {
            MAX_AUTO_TRANSFER_MS
        } else {
            self.cleanup.auto_transfer_ms
        };
        valid
    }

    /// The recording cap, in milliseconds.
    pub fn cap_ms(&self) -> (ms: u64)
        ensures
            ms == self.capture.cap_secs as u64 * 1000,
    {
        self.capture.cap_secs as u64 * 1000
    }

    /// How hard the cleanup works.
    pub fn strictness(&self) -> (level: Strictness)
        ensures
            level == self.cleanup.strictness,
    {
        self.cleanup.strictness
    }
}

/// Whether the start-with-the-session entry has to be written: unless it was read and already
/// says what is wanted. An entry that could not be read is written anyway.
pub fn autostart_needs_write(current: Option<bool>, wanted: bool) -> (write: bool)
    ensures
        write == (current != Some(wanted)),
{
    match current {
        Some(enabled) => enabled != wanted,
        None => true,
    }
}

impl Default for Settings {
    fn default() -> (settings: Settings)
        ensures
            settings@ == default_view(),
    {
        Settings::shipped()
    }
}

/// Validating twice is validating once: a stored document is already in range.
pub proof fn lemma_validated_is_stable(view: SettingsView)
    ensures
        validated_view(validated_view(view)) == validated_view(view),
{
}

/// The shipped document is already in range, so storing it changes nothing.
pub proof fn lemma_shipped_is_valid()
    ensures
        validated_view(default_view()) == default_view(),
{
}

} // verus!
