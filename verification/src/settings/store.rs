//! The one copy of the settings, and what a replacement changed.

use vstd::prelude::*;

use super::{Settings, SettingsView, validated_view};

verus! {

/// What moved between two documents, and what the settings now are.
#[derive(Clone, Debug, PartialEq, Eq)]
pub struct Change {
    /// The settings as they now are, already validated.
    pub settings: Settings,
    /// The trigger, the mode or the second key moved: the listener is re-installed.
    pub hotkey: bool,
    /// The device, the cap or the pre-roll moved: the microphone is re-opened.
    pub capture: bool,
    /// The cleanup level moved: the next dictation is cleaned differently.
    pub cleanup: bool,
    /// The dictionary moved: it is rebuilt, and the next transcription carries a new prompt.
    pub dictionary: bool,
    /// The tier override moved: the engine restarts on the tier the user asked for.
    pub engine: bool,
    /// The interface language moved: the catalogue is reloaded and the tray re-rendered.
    pub language: bool,
    /// The start-with-the-session switch moved.
    pub autostart: bool,
}

/// Each flag is raised by its own fields and by nothing else.
pub open spec fn change_flags(before: SettingsView, after: SettingsView) -> (
    bool,
    bool,
    bool,
    bool,
    bool,
    bool,
    bool,
) {
    (
        before.hotkey != after.hotkey,
        before.capture != after.capture,
        before.cleanup.strictness != after.cleanup.strictness,
        before.dictionary != after.dictionary,
        before.engine != after.engine,
        before.language != after.language,
        before.autostart != after.autostart,
    )
}

impl Change {
    /// The flags, in the order hotkey, capture, cleanup, dictionary, engine, language,
    /// autostart.
    pub open spec fn flags(self) -> (bool, bool, bool, bool, bool, bool, bool) {
        (self.hotkey, self.capture, self.cleanup, self.dictionary, self.engine, self.language, self.autostart)
    }

    /// Compare two documents and say what a listener would care about.
    pub fn between(before: &Settings, after: &Settings) -> (change: Change)
        ensures
            change.settings@ == after@,
            change.flags() == change_flags(before@, after@),
            change.hotkey == (before@.hotkey != after@.hotkey),
            change.capture == (before@.capture != after@.capture),
            change.cleanup == (before.cleanup.strictness != after.cleanup.strictness),
            change.dictionary == (before@.dictionary != after@.dictionary),
            change.engine == (before.engine != after.engine),
            change.language == (before.ui.language != after.ui.language),
            change.autostart == (before.ui.autostart != after.ui.autostart),
    {
        Change {
            hotkey: !before.hotkey.same(&after.hotkey),
            capture: !before.capture.same(&after.capture),
            cleanup: before.cleanup.strictness != after.cleanup.strictness,
            dictionary: !super::same_dictionary(&before.dictionary, &after.dictionary),
            engine: before.engine != after.engine,
            language: before.ui.language != after.ui.language,
            autostart: before.ui.autostart != after.ui.autostart,
            settings: after.copy(),
        }
    }
}

/// The one copy of the settings, and where they are written.
pub struct SettingsStore {
    path: Option<String>,
    current: Settings,
}

impl SettingsStore {
    /// The settings held right now.
    pub closed spec fn current(&self) -> SettingsView {
        self.current@
    }

    /// Where they are written, when there is a file.
    pub closed spec fn path_spec(&self) -> Option<Seq<char>> {
        super::opt_string_view(self.path)
    }

    /// A store over a document, with or without a file behind it; what it holds is validated.
    pub fn new(path: Option<String>, settings: Settings) -> (store: SettingsStore)
        ensures
            store.current() == validated_view(settings@),
            store.path_spec() == super::opt_string_view(path),
    {
        SettingsStore { path, current: settings.validated() }
    }

    /// The settings as they are now.
    pub fn get(&self) -> (settings: Settings)
        ensures
            settings@ == self.current(),
    {
        self.current.copy()
    }

    /// Where the settings are written, when there is a file.
    pub fn path(&self) -> (path: Option<&str>)
        ensures
            match path {
                Some(path) => self.path_spec() == Some(path@),
                None => self.path_spec() is None,
            },
    {
        match &self.path {
            Some(path) => Some(path.as_str()),
            None => None,
        }
    }

    /// Replace the settings. Gives back the settings as they were stored, which is the
    /// validated document, and the change to tell everybody about — `None` when the new
    /// document says the same thing as the old one, and nobody needs telling.
    pub fn set(&mut self, next: Settings) -> (stored: (Settings, Option<Change>))
        ensures
            stored.0@ == validated_view(next@),
            final(self).current() == validated_view(next@),
            final(self).path_spec() == old(self).path_spec(),
            stored.1 is None <==> old(self).current() == validated_view(next@),
            match stored.1 {
                Some(change) => change.settings@ == validated_view(next@) && change.flags()
                    == change_flags(old(self).current(), validated_view(next@)),
                None => true,
            },
    {
        let next = next.validated();
        if self.current.same(&next) {
            return (next, None);
        }
        let change = Change::between(&self.current, &next);
        self.current = next.copy();
        (next, Some(change))
    }
}

/// A document that says the same thing as the one held changes nothing and notifies nobody;
/// one that differs raises exactly the flags of the sections that differ.
pub proof fn lemma_no_change_no_flags(view: SettingsView)
    ensures
        change_flags(view, view) == (false, false, false, false, false, false, false),
{
}

/// A change of one section raises that section's flag and no other: documents that differ
/// only in the engine section raise the engine flag alone, and likewise for the trigger, the
/// microphone, the dictionary, the language and the autostart switch.
pub proof fn lemma_one_section_one_flag(before: SettingsView, after: SettingsView)
    ensures
        after == (SettingsView { engine: after.engine, ..before }) && after.engine != before.engine
            ==> change_flags(before, after) == (false, false, false, false, true, false, false),
        after == (SettingsView { hotkey: after.hotkey, ..before }) && after.hotkey != before.hotkey
            ==> change_flags(before, after) == (true, false, false, false, false, false, false),
        after == (SettingsView { capture: after.capture, ..before }) && after.capture
            != before.capture ==> change_flags(before, after) == (
            false,
            true,
            false,
            false,
            false,
            false,
            false,
        ),
        after == (SettingsView { dictionary: after.dictionary, ..before }) && after.dictionary
            != before.dictionary ==> change_flags(before, after) == (
            false,
            false,
            false,
            true,
            false,
            false,
            false,
        ),
        after == (SettingsView { language: after.language, ..before }) && after.language
            != before.language ==> change_flags(before, after) == (
            false,
            false,
            false,
            false,
            false,
            true,
            false,
        ),
        after == (SettingsView { autostart: after.autostart, ..before }) && after.autostart
            != before.autostart ==> change_flags(before, after) == (
            false,
            false,
            false,
            false,
            false,
            false,
            true,
        ),
{
}

} // verus!
