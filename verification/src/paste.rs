//! Where a finished dictation goes: what the target is called, which chord it wants, and the
//! order in which a paste touches the window and the clipboard.

use vstd::prelude::*;
use vstd::string::*;

use crate::i18n::{lookup, Pairs};
use crate::text::{ascii_lowered, count_trail, lemma_trail_bounds, same_text, strip_back, trail, trim_back, CharClass};

verus! {

/// Applications that read `Ctrl+Shift+V` as paste, by executable stem, lower-cased.
pub open spec fn shift_paste_spec() -> Seq<Seq<char>> {
    seq![
        "windowsterminal"@,
        "openconsole"@,
        "conhost"@,
        "mintty"@,
        "alacritty"@,
        "wezterm-gui"@,
        "hyper"@,
    ]
}

/// Applications that read `Ctrl+Shift+V` as paste: the terminal family.
pub fn shift_paste() -> (stems: Vec<&'static str>)
    ensures
        stems@.len() == shift_paste_spec().len(),
        forall|k: int| 0 <= k < stems@.len() ==> #[trigger] stems@[k]@ == shift_paste_spec()[k],
{
    vec!["windowsterminal", "openconsole", "conhost", "mintty", "alacritty", "wezterm-gui", "hyper"]
}

/// What to call an application on the panel, by executable stem, lower-cased.
pub open spec fn friendly_names_spec() -> Pairs {
    seq![
        ("code"@, "VS Code"@),
        ("cursor"@, "Cursor"@),
        ("devenv"@, "Visual Studio"@),
        ("idea64"@, "IntelliJ"@),
        ("pycharm64"@, "PyCharm"@),
        ("rider64"@, "Rider"@),
        ("sublime_text"@, "Sublime"@),
        ("zed"@, "Zed"@),
        ("windowsterminal"@, "Windows Terminal"@),
        ("openconsole"@, "Terminal"@),
        ("conhost"@, "Terminal"@),
        ("powershell"@, "PowerShell"@),
        ("pwsh"@, "PowerShell"@),
        ("wezterm-gui"@, "WezTerm"@),
        ("alacritty"@, "Alacritty"@),
        ("mintty"@, "mintty"@),
        ("hyper"@, "Hyper"@),
        ("chrome"@, "Chrome"@),
        ("msedge"@, "Edge"@),
        ("firefox"@, "Firefox"@),
        ("notepad"@, "Notepad"@),
        ("notepad++"@, "Notepad++"@),
        ("obsidian"@, "Obsidian"@),
        ("slack"@, "Slack"@),
        ("discord"@, "Discord"@),
    ]
}

/// What to call an application on the panel, by executable stem, lower-cased: brands, not
/// translations.
pub fn friendly_names() -> (names: Vec<(&'static str, &'static str)>)
    ensures
        names@.len() == friendly_names_spec().len(),
        forall|k: int| 0 <= k < names@.len() ==> (#[trigger] names@[k]).0@ == friendly_names_spec()[k].0
            && names@[k].1@ == friendly_names_spec()[k].1,
{
    vec![
        ("code", "VS Code"),
        ("cursor", "Cursor"),
        ("devenv", "Visual Studio"),
        ("idea64", "IntelliJ"),
        ("pycharm64", "PyCharm"),
        ("rider64", "Rider"),
        ("sublime_text", "Sublime"),
        ("zed", "Zed"),
        ("windowsterminal", "Windows Terminal"),
        ("openconsole", "Terminal"),
        ("conhost", "Terminal"),
        ("powershell", "PowerShell"),
        ("pwsh", "PowerShell"),
        ("wezterm-gui", "WezTerm"),
        ("alacritty", "Alacritty"),
        ("mintty", "mintty"),
        ("hyper", "Hyper"),
        ("chrome", "Chrome"),
        ("msedge", "Edge"),
        ("firefox", "Firefox"),
        ("notepad", "Notepad"),
        ("notepad++", "Notepad++"),
        ("obsidian", "Obsidian"),
        ("slack", "Slack"),
        ("discord", "Discord"),
    ]
}

/// The last component of a Windows path: what follows the last `\` or `/`, trailing
/// separators ignored.
pub open spec fn file_name_of(path: Seq<char>) -> Seq<char> {
    let body = strip_back(path, CharClass::PathSeparator);
    body.skip(body.len() - trail(body, CharClass::NotPathSeparator))
}

/// A file name's stem, as `Path::file_stem` cuts it: the name up to its last `.`, except that
/// a name whose only dot is its first character is all stem, and `..` has none.
pub open spec fn stem_spec(path: Seq<char>) -> Option<Seq<char>> {
    let name = file_name_of(path);
    let after = trail(name, CharClass::NotDot);
    if name.len() == 0 || name == ".."@ {
        None
    } else if after == name.len() || after + 1 == name.len() {
        Some(name)
    } else {
        Some(name.take(name.len() - after - 1))
    }
}

/// What `str::to_lowercase` gives for a text.
pub uninterp spec fn lowercase_str_of(s: Seq<char>) -> Seq<char>;

/// `str::to_lowercase`: the text in lower case under Unicode's default rules; a text that is
/// all ASCII comes back in ASCII lower case.
#[verifier::external_body]
fn lowercase_str(s: &str) -> (lower: String)
    ensures
        lower@ == lowercase_str_of(s@),
        (forall|i: int| 0 <= i < s@.len() ==> (#[trigger] s@[i] as u32) < 128) ==> lower@
            == ascii_lowered(s@),
{
    s.to_lowercase()
}

/// The stem of a path, as it is spelled.
fn file_stem(path: &str) -> (stem: Option<String>)
    ensures
        match stem {
            Some(stem) => stem_spec(path@) == Some(stem@),
            None => stem_spec(path@) is None,
        },
{
    let body = trim_back(path, CharClass::PathSeparator);
    let len = body.unicode_len();
    let k = count_trail(body, CharClass::NotPathSeparator);
    proof {
        lemma_trail_bounds(body@, CharClass::NotPathSeparator);
    }
    let name = body.substring_char(len - k, len);
    let name_len = name.unicode_len();
    if name_len == 0 || same_text(name, "..") {
        return None;
    }
    let after = count_trail(name, CharClass::NotDot);
    proof {
        lemma_trail_bounds(name@, CharClass::NotDot);
    }
    if after == name_len || after + 1 == name_len {
        Some(String::from_str(name))
    } else {
        Some(String::from_str(name.substring_char(0, name_len - after - 1)))
    }
}

/// A path's stem, lower-cased, or nothing when it has none.
pub open spec fn stem_key(path: Seq<char>) -> Seq<char> {
    match stem_spec(path) {
        Some(stem) => lowercase_str_of(stem),
        None => Seq::empty(),
    }
}

/// The executable's name without its extension, lower-cased: `C:\…\Code.exe` becomes `code`.
pub fn stem_of(path: &str) -> (stem: String)
    ensures
        stem@ == stem_key(path@),
{
    match file_stem(path) {
        Some(stem) => lowercase_str(stem.as_str()),
        None => String::new(),
    }
}

/// What the panel calls an application: its brand when the table names it, and otherwise
/// its own file stem as it spells it.
pub open spec fn label_spec(path: Seq<char>) -> Seq<char> {
    match lookup(friendly_names_spec(), stem_key(path)) {
        Some(name) => name,
        None => match stem_spec(path) {
            Some(stem) => stem,
            None => Seq::empty(),
        },
    }
}

/// The brand the table gives an already lower-cased stem, if it names one.
pub fn brand_for_stem(key: &str) -> (brand: Option<&'static str>)
    ensures
        match brand {
            Some(name) => lookup(friendly_names_spec(), key@) == Some(name@),
            None => lookup(friendly_names_spec(), key@) is None,
        },
{
    let names = friendly_names();
    let ghost table = friendly_names_spec();
    let mut i: usize = 0;
    proof {
        assert(table.skip(0) =~= table);
    }
    while i < names.len()
        invariant
            names@.len() == table.len(),
            forall|k: int| 0 <= k < names@.len() ==> (#[trigger] names@[k]).0@ == table[k].0
                && names@[k].1@ == table[k].1,
            i <= names@.len(),
            table == friendly_names_spec(),
            lookup(table, key@) == lookup(table.skip(i as int), key@),
        decreases names@.len() - i,
    {
        proof {
            assert(table.skip(i as int).drop_first() =~= table.skip(i + 1));
            assert(table.skip(i as int)[0] == table[i as int]);
        }
        if same_text(names[i].0, key) {
            return Some(names[i].1);
        }
        i += 1;
    }
    proof {
        assert(table.skip(i as int) =~= Seq::<(Seq<char>, Seq<char>)>::empty());
    }
    None
}

/// What the panel calls this application.
pub fn label_for(path: &str) -> (label: String)
    ensures
        label@ == label_spec(path@),
{
    let stem = stem_of(path);
    match brand_for_stem(stem.as_str()) {
        Some(name) => String::from_str(name),
        None => match file_stem(path) {
            Some(stem) => stem,
            None => String::new(),
        },
    }
}

/// Whether an already lower-cased stem belongs to the family that pastes with
/// `Ctrl+Shift+V`.
pub fn in_shift_family(key: &str) -> (shift: bool)
    ensures
        shift == shift_paste_spec().contains(key@),
{
    let family = shift_paste();
    let mut i: usize = 0;
    while i < family.len()
        invariant
            family@.len() == shift_paste_spec().len(),
            forall|k: int| 0 <= k < family@.len() ==> #[trigger] family@[k]@ == shift_paste_spec()[k],
            i <= family@.len(),
            forall|k: int| 0 <= k < i ==> shift_paste_spec()[k] != key@,
        decreases family@.len() - i,
    {
        if same_text(family[i], key) {
            proof {
                assert(shift_paste_spec()[i as int] == key@);
            }
            return true;
        }
        i += 1;
    }
    false
}

/// Whether this application wants `Ctrl+Shift+V` rather than `Ctrl+V`.
pub fn wants_shift(path: &str) -> (shift: bool)
    ensures
        shift == shift_paste_spec().contains(stem_key(path@)),
{
    let stem = stem_of(path);
    in_shift_family(stem.as_str())
}

/// Every terminal with a special chord also has a name on the panel.
pub proof fn lemma_every_terminal_is_named()
    ensures
        forall|k: int|
            0 <= k < shift_paste_spec().len() ==> #[trigger] lookup(
                friendly_names_spec(),
                shift_paste_spec()[k],
            ) is Some,
{
    let names = friendly_names_spec();
    let family = shift_paste_spec();
    assert(names[8].0 == family[0]);
    assert forall|k: int| 0 <= k < family.len() implies #[trigger] lookup(names, family[k]) is Some by {
        lemma_lookup_finds(names, family[k], if k == 0 { 8 } else if k == 1 { 9 } else if k == 2 { 10 } else if k == 3 { 15 } else if k == 4 { 14 } else if k == 5 { 13 } else { 16 });
    }
}

/// A key that some pair of a catalogue carries is found.
pub proof fn lemma_lookup_finds(pairs: Pairs, key: Seq<char>, at: int)
    requires
        0 <= at < pairs.len(),
        pairs[at].0 == key,
    ensures
        lookup(pairs, key) is Some,
    decreases at,
{
    if pairs[0].0 != key {
        assert(pairs.drop_first()[at - 1] == pairs[at]);
        lemma_lookup_finds(pairs.drop_first(), key, at - 1);
    }
}

/// What happened to one transfer.
#[derive(Clone, Copy, Debug, PartialEq, Eq, Structural)]
pub enum Outcome {
    /// The chord was sent and the target took the text off the clipboard.
    Pasted,
    /// The chord was sent and the receipt never came back in time.
    Unclaimed,
    /// The window the recording was aimed at is gone, or would not come back to the front.
    TargetGone,
    /// The clipboard itself refused.
    Refused,
}

/// Where a paste is: each step names the outside work to do next.
#[derive(Clone, Copy, Debug, PartialEq, Eq, Structural)]
pub enum PasteStep {
    /// Ask whether the target is still there, and bring it to the front.
    CheckTarget,
    /// Read the user's clipboard, then offer the dictation on it.
    Offer,
    /// Send the paste chord, with Shift or without.
    SendChord { shift: bool },
    /// Wait for the target to take the text.
    AwaitReceipt,
    /// Put the user's clipboard back, then report.
    Restore { then: Outcome },
    /// Nothing more to do.
    Done { outcome: Outcome },
}

/// What the outside work answered.
#[derive(Clone, Copy, Debug, PartialEq, Eq, Structural)]
pub enum PasteEvent {
    /// Whether the target window exists, and whether it came to the front.
    Target { exists: bool, focused: bool },
    /// Whether the clipboard took the offer.
    Offered { ok: bool },
    /// Whether the chord went out.
    ChordSent { ok: bool },
    /// Whether the target took the text in time.
    Receipt { taken: bool },
    /// The user's clipboard is back.
    Restored,
}

/// The next step of a paste: a target that is gone costs nothing, a refused offer stops
/// before anything was changed, and every offer that went through is restored before the
/// outcome is reported.
pub open spec fn paste_next(step: PasteStep, event: PasteEvent, shift: bool) -> PasteStep {
    match (step, event) {
        (PasteStep::CheckTarget, PasteEvent::Target { exists, focused }) => if exists && focused {
            PasteStep::Offer
        } else {
            PasteStep::Done { outcome: Outcome::TargetGone }
        },
        (PasteStep::Offer, PasteEvent::Offered { ok }) => if ok {
            PasteStep::SendChord { shift }
        } else {
            PasteStep::Done { outcome: Outcome::Refused }
        },
        (PasteStep::SendChord { .. }, PasteEvent::ChordSent { ok }) => if ok {
            PasteStep::AwaitReceipt
        } else {
            PasteStep::Restore { then: Outcome::Refused }
        },
        (PasteStep::AwaitReceipt, PasteEvent::Receipt { taken }) => PasteStep::Restore {
            then: if taken {
                Outcome::Pasted
            } else {
                Outcome::Unclaimed
            },
        },
        (PasteStep::Restore { then }, PasteEvent::Restored) => PasteStep::Done { outcome: then },
        _ => step,
    }
}

/// The next step of pasting into the application at `exe`, given what the last piece of
/// outside work answered; an answer to a question that was not asked changes nothing.
pub fn paste_step(step: PasteStep, event: PasteEvent, exe: &str) -> (next: PasteStep)
    ensures
        next == paste_next(step, event, shift_paste_spec().contains(stem_key(exe@))),
        step == PasteStep::AwaitReceipt && event == (PasteEvent::Receipt { taken: true }) ==> next
            == (PasteStep::Restore { then: Outcome::Pasted }),
        step == PasteStep::AwaitReceipt && event == (PasteEvent::Receipt { taken: false }) ==> next
            == (PasteStep::Restore { then: Outcome::Unclaimed }),
        step is Restore && event == PasteEvent::Restored ==> next == (PasteStep::Done {
            outcome: step->then,
        }),
{
    match (step, event) {
        (PasteStep::CheckTarget, PasteEvent::Target { exists, focused }) => if exists && focused {
            PasteStep::Offer
        } else {
            PasteStep::Done { outcome: Outcome::TargetGone }
        },
        (PasteStep::Offer, PasteEvent::Offered { ok }) => if ok {
            PasteStep::SendChord { shift: wants_shift(exe) }
        } else {
            PasteStep::Done { outcome: Outcome::Refused }
        },
        (PasteStep::SendChord { .. }, PasteEvent::ChordSent { ok }) => if ok {
            PasteStep::AwaitReceipt
        } else {
            PasteStep::Restore { then: Outcome::Refused }
        },
        (PasteStep::AwaitReceipt, PasteEvent::Receipt { taken }) => PasteStep::Restore {
            then: if taken {
                Outcome::Pasted
            } else {
                Outcome::Unclaimed
            },
        },
        (PasteStep::Restore { then }, PasteEvent::Restored) => PasteStep::Done { outcome: then },
        _ => step,
    }
}

/// A paste whose target is gone never reaches the clipboard, and a paste that reached the
/// clipboard is never reported before the clipboard was restored.
pub proof fn lemma_paste_order(step: PasteStep, event: PasteEvent, shift: bool)
    ensures
        forall|exists_now: bool, focused: bool|
            !(exists_now && focused) ==> #[trigger] paste_next(
                PasteStep::CheckTarget,
                PasteEvent::Target { exists: exists_now, focused },
                shift,
            ) == (PasteStep::Done { outcome: Outcome::TargetGone }),
        (step is SendChord || step is AwaitReceipt) ==> !(paste_next(step, event, shift) is Done),
{
}

/// The outcome a paste reports is what happened to it: a paste the target took is reported
/// as pasted, one the target never took as unclaimed, a chord that did not go out as refused
/// after the clipboard was put back, a refused offer as refused with nothing to put back,
/// and a window that is gone as gone. Each run goes step by step from checking the target.
pub proof fn lemma_paste_outcomes(shift: bool)
    ensures
        paste_next(PasteStep::AwaitReceipt, PasteEvent::Receipt { taken: true }, shift)
            == (PasteStep::Restore { then: Outcome::Pasted }),
        paste_next(PasteStep::AwaitReceipt, PasteEvent::Receipt { taken: false }, shift)
            == (PasteStep::Restore { then: Outcome::Unclaimed }),
        paste_next(
            paste_next(
                paste_next(
                    paste_next(
                        paste_next(
                            PasteStep::CheckTarget,
                            PasteEvent::Target { exists: true, focused: true },
                            shift,
                        ),
                        PasteEvent::Offered { ok: true },
                        shift,
                    ),
                    PasteEvent::ChordSent { ok: true },
                    shift,
                ),
                PasteEvent::Receipt { taken: true },
                shift,
            ),
            PasteEvent::Restored,
            shift,
        ) == (PasteStep::Done { outcome: Outcome::Pasted }),
        paste_next(
            paste_next(
                paste_next(
                    paste_next(
                        paste_next(
                            PasteStep::CheckTarget,
                            PasteEvent::Target { exists: true, focused: true },
                            shift,
                        ),
                        PasteEvent::Offered { ok: true },
                        shift,
                    ),
                    PasteEvent::ChordSent { ok: true },
                    shift,
                ),
                PasteEvent::Receipt { taken: false },
                shift,
            ),
            PasteEvent::Restored,
            shift,
        ) == (PasteStep::Done { outcome: Outcome::Unclaimed }),
        paste_next(
            paste_next(
                paste_next(
                    paste_next(
                        PasteStep::CheckTarget,
                        PasteEvent::Target { exists: true, focused: true },
                        shift,
                    ),
                    PasteEvent::Offered { ok: true },
                    shift,
                ),
                PasteEvent::ChordSent { ok: false },
                shift,
            ),
            PasteEvent::Restored,
            shift,
        ) == (PasteStep::Done { outcome: Outcome::Refused }),
        paste_next(
            paste_next(
                PasteStep::CheckTarget,
                PasteEvent::Target { exists: true, focused: true },
                shift,
            ),
            PasteEvent::Offered { ok: false },
            shift,
        ) == (PasteStep::Done { outcome: Outcome::Refused }),
        paste_next(
            PasteStep::Offer,
            PasteEvent::Offered { ok: true },
            shift,
        ) == (PasteStep::SendChord { shift }),
        forall|then: Outcome|
            #[trigger] paste_next(PasteStep::Restore { then }, PasteEvent::Restored, shift)
                == (PasteStep::Done { outcome: then }),
{
}

} // verus!
