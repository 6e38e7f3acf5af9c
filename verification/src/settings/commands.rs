//! What the settings window is answered with, and the rules a document is checked against
//! before it is stored.

use vstd::prelude::*;
use vstd::string::*;

use crate::capture::device::DeviceInfo;
use crate::engine::probe::{to_lower, turkish_lowered, ProbeResult};
use crate::engine::state::EngineSnapshot;
use crate::platform::{auto_paste_offered, delivery, delivery_name, delivery_of, Delivery, Platform};
use crate::text::{trim, trimmed};

use super::{dictionary_view, DictionaryEntry, DictionaryView, Settings};

verus! {

/// A refusal the settings window can translate: a catalogue key, and a reason for a
/// developer when there is one.
#[derive(Clone, Debug, PartialEq, Eq)]
pub struct CommandError {
    /// The catalogue key of the sentence the window shows.
    pub key: &'static str,
    /// What went wrong, in the words of whatever failed.
    pub detail: Option<String>,
}

impl CommandError {
    /// A refusal with nothing to add.
    pub fn plain(key: &'static str) -> (error: CommandError)
        ensures
            error.key == key,
            error.detail is None,
    {
        CommandError { key, detail: None }
    }

    /// A refusal with the failure's own words beside it.
    pub fn detailed(key: &'static str, detail: &str) -> (error: CommandError)
        ensures
            error.key == key,
            error.detail is Some && error.detail->0@ == detail@,
    {
        CommandError { key, detail: Some(String::from_str(detail)) }
    }
}

/// The catalogue the window is drawn in.
#[derive(Clone, Debug)]
pub struct StringsPayload {
    /// The language, as a primary subtag.
    pub locale: String,
    /// Every string, English behind the chosen language.
    pub strings: Vec<(String, String)>,
}

/// A microphone, as the window lists it.
#[derive(Clone, Debug, PartialEq, Eq)]
pub struct DeviceRow {
    /// The stable id the settings store.
    pub id: String,
    /// The name a person chooses by.
    pub name: String,
    /// Whether this is the host's default input.
    pub is_default: bool,
}

impl DeviceRow {
    /// The row a device becomes.
    pub fn of(device: &DeviceInfo) -> (row: DeviceRow)
        ensures
            row.id@ == device.id@,
            row.name@ == device.name@,
            row.is_default == device.is_default,
    {
        DeviceRow { id: device.id.clone(), name: device.name.clone(), is_default: device.is_default }
    }
}

/// A model file, as the window lists it.
#[derive(Clone, Debug, PartialEq, Eq)]
pub struct ModelRow {
    /// The file name.
    pub file: &'static str,
    /// Its size, in megabytes.
    pub size_mb: u64,
    /// Whether it is on disk.
    pub present: bool,
}

/// What the engine is doing and what this machine decided, for the window.
#[derive(Clone, Debug)]
pub struct EngineStatus {
    /// What the engine is doing right now.
    pub engine: EngineSnapshot,
    /// The tier this machine decided on, when it has.
    pub decided_tier: Option<&'static str>,
    /// What the probe found when it decided.
    pub probe: Option<ProbeResult>,
    /// When it decided, in seconds since the epoch.
    pub decided_at: Option<u64>,
    /// The models, by tier name.
    pub models: Vec<(&'static str, ModelRow)>,
}

/// How this build hands a dictation over, for the window.
#[derive(Clone, Copy, Debug, PartialEq, Eq)]
pub struct PlatformPayload {
    /// `paste` or `clipboard`.
    pub delivery: &'static str,
    /// Whether the switch that sends an unaimed paste chord is offered.
    pub auto_paste: bool,
}

/// What a build on `platform` does with a finished dictation, for the controls that only
/// exist on one platform: the delivery's name, and whether the unaimed-chord switch is drawn.
pub fn get_platform(platform: Platform) -> (payload: PlatformPayload)
    ensures
        payload.delivery@ == match delivery_of(platform) {
            Delivery::Paste => "paste"@,
            Delivery::Clipboard => "clipboard"@,
        },
        payload.auto_paste == (platform == Platform::Linux),
{
    PlatformPayload { delivery: delivery_name(delivery(platform)), auto_paste: auto_paste_offered(platform) }
}

/// Why a dictionary was refused.
#[derive(Clone, Copy, Debug, PartialEq, Eq, Structural)]
pub enum DictionaryProblem {
    /// An entry has no term.
    Empty,
    /// Two entries claim the same term.
    Duplicate,
}

/// The form two claims are compared in: trimmed, lower-cased under Turkish rules.
pub open spec fn claim_of(canonical: Seq<char>) -> Seq<char> {
    turkish_lowered(trimmed(canonical))
}

/// The first problem in a dictionary's first `n` entries: an entry with no term, or a term
/// an earlier entry already claimed.
pub open spec fn dictionary_problem(entries: DictionaryView, n: nat) -> Option<DictionaryProblem>
    decreases n,
{
    if n == 0 {
        None
    } else {
        let earlier = dictionary_problem(entries, (n - 1) as nat);
        if earlier is Some {
            earlier
        } else if trimmed(entries[n - 1].0).len() == 0 {
            Some(DictionaryProblem::Empty)
        } else if exists|j: int| 0 <= j < n - 1 && #[trigger] claim_of(entries[j].0) == claim_of(entries[n - 1].0) {
            Some(DictionaryProblem::Duplicate)
        } else {
            None
        }
    }
}

/// Once the first `n` entries have a problem, every longer prefix has that same problem.
pub proof fn lemma_problem_persists(
    entries: DictionaryView,
    n: nat,
    m: nat,
)
    requires
        n <= m,
        dictionary_problem(entries, n) is Some,
    ensures
        dictionary_problem(entries, m) == dictionary_problem(entries, n),
    decreases m - n,
{
    if n < m {
        lemma_problem_persists(entries, n, (m - 1) as nat);
    }
}

/// The catalogue key a dictionary problem is reported with.
pub open spec fn problem_key(problem: DictionaryProblem) -> Seq<char> {
    match problem {
        DictionaryProblem::Empty => "settings.error.dictionary.empty"@,
        DictionaryProblem::Duplicate => "settings.error.dictionary.duplicate"@,
    }
}

/// A list of strings, as plain values.
pub open spec fn texts_view(texts: Seq<String>) -> Seq<Seq<char>> {
    texts.map_values(|t: String| t@)
}

/// Whether claim `i` repeats one made before it.
pub open spec fn repeats_earlier(claims: Seq<Seq<char>>, i: int) -> bool {
    exists|j: int| 0 <= j < i && claims[j] == #[trigger] claims[i]
}

/// The first claim that repeats an earlier one, among claims already trimmed and lower-cased:
/// its index, or `None` when every claim is new.
pub fn first_repeated_claim(claims: &Vec<String>) -> (found: Option<usize>)
    ensures
        match found {
            Some(i) => i < claims@.len() && repeats_earlier(texts_view(claims@), i as int)
                && forall|k: int| 0 <= k < i ==> !#[trigger] repeats_earlier(texts_view(claims@), k),
            None => forall|k: int|
                0 <= k < claims@.len() ==> !#[trigger] repeats_earlier(texts_view(claims@), k),
        },
{
    let ghost view = texts_view(claims@);
    let mut i: usize = 0;
    while i < claims.len()
        invariant
            view == texts_view(claims@),
            i <= claims@.len(),
            forall|k: int| 0 <= k < i ==> !#[trigger] repeats_earlier(view, k),
        decreases claims@.len() - i,
    {
        let mut j: usize = 0;
        while j < i
            invariant
                view == texts_view(claims@),
                j <= i,
                i < claims@.len(),
                forall|k: int| 0 <= k < i ==> !#[trigger] repeats_earlier(view, k),
                forall|k: int| 0 <= k < j ==> view[k] != view[i as int],
            decreases i - j,
        {
            if claims[j] == claims[i] {
                proof {
                    assert(view[j as int] == claims@[j as int]@);
                    assert(view[i as int] == claims@[i as int]@);
                    assert(repeats_earlier(view, i as int));
                }
                return Some(i);
            }
            proof {
                assert(view[j as int] == claims@[j as int]@);
                assert(view[i as int] == claims@[i as int]@);
            }
            j += 1;
        }
        proof {
            assert(!repeats_earlier(view, i as int));
        }
        i += 1;
    }
    None
}

/// Where every one of the first `n` entries has a term, the first problem among them is a
/// duplicate exactly when some claim repeats an earlier one.
proof fn lemma_problem_of_named_entries(
    entries: DictionaryView,
    claims: Seq<Seq<char>>,
    n: nat,
)
    requires
        n <= entries.len(),
        n <= claims.len(),
        forall|k: int| 0 <= k < n ==> trimmed(#[trigger] entries[k].0).len() > 0,
        forall|k: int| 0 <= k < n ==> #[trigger] claims[k] == claim_of(entries[k].0),
    ensures
        dictionary_problem(entries, n) == if exists|k: int|
            0 <= k < n && #[trigger] repeats_earlier(claims, k) {
            Some(DictionaryProblem::Duplicate)
        } else {
            None::<DictionaryProblem>
        },
    decreases n,
{
    if n > 0 {
        lemma_problem_of_named_entries(entries, claims, (n - 1) as nat);
        let last = (n - 1) as int;
        assert(trimmed(entries[last].0).len() > 0);
        if exists|j: int| 0 <= j < last && #[trigger] claim_of(entries[j].0) == claim_of(entries[last].0) {
            let j = choose|j: int| 0 <= j < last && #[trigger] claim_of(entries[j].0) == claim_of(entries[last].0);
            assert(claims[j] == claims[last]);
            assert(repeats_earlier(claims, last));
        }
        if repeats_earlier(claims, last) {
            let j = choose|j: int| 0 <= j < last && claims[j] == #[trigger] claims[last];
            assert(claim_of(entries[j].0) == claim_of(entries[last].0));
        }
    }
}

/// Two entries may not claim the same term, and no entry may be without one. Compared the
/// way the dictionary matches: trimmed and case-insensitively under Turkish casing.
pub fn check_dictionary(settings: &Settings) -> (checked: Result<(), CommandError>)
    ensures
        match dictionary_problem(dictionary_view(settings.dictionary@), settings.dictionary@.len()) {
            None => checked is Ok,
            Some(problem) => checked is Err && checked->Err_0.key@ == problem_key(problem)
                && checked->Err_0.detail is None,
        },
{
    let entries = &settings.dictionary;
    let ghost view = dictionary_view(entries@);
    let mut claims: Vec<String> = Vec::new();
    let mut i: usize = 0;
    let mut unnamed = false;
    while i < entries.len()
        invariant_except_break
            !unnamed,
        invariant
            view == dictionary_view(entries@),
            entries@ == settings.dictionary@,
            view.len() == entries@.len(),
            i <= entries@.len(),
            claims@.len() == i,
            forall|k: int| 0 <= k < i ==> #[trigger] texts_view(claims@)[k] == claim_of(view[k].0),
            forall|k: int| 0 <= k < i ==> trimmed(#[trigger] view[k].0).len() > 0,
        ensures
            unnamed ==> i < entries@.len() && trimmed(view[i as int].0).len() == 0,
            !unnamed ==> i == entries@.len(),
        decreases entries@.len() - i,
    {
        let canonical = trim(entries[i].canonical.as_str());
        proof {
            assert(view[i as int].0 == entries@[i as int].canonical@);
        }
        if canonical.unicode_len() == 0 {
            unnamed = true;
            break;
        }
        let claim = to_lower(canonical);
        let ghost old_claims = claims@;
        claims.push(claim);
        proof {
            assert forall|k: int| 0 <= k < i + 1 implies #[trigger] texts_view(claims@)[k] == claim_of(view[k].0) by {
                assert(texts_view(claims@)[k] == claims@[k]@);
                if k < i {
                    assert(texts_view(old_claims)[k] == old_claims[k]@);
                    assert(claims@[k] == old_claims[k]);
                } else {
                    assert(claims@[k]@ == claim_of(view[k].0));
                }
            }
        }
        i += 1;
    }
    let repeated = first_repeated_claim(&claims);
    proof {
        lemma_problem_of_named_entries(view, texts_view(claims@), i as nat);
        assert(view.len() == settings.dictionary@.len());
    }
    match repeated {
        Some(r) => {
            proof {
                assert(repeats_earlier(texts_view(claims@), r as int));
                assert(dictionary_problem(view, i as nat) == Some(DictionaryProblem::Duplicate));
                lemma_problem_persists(view, i as nat, view.len());
                reveal_strlit("settings.error.dictionary.duplicate");
            }
            Err(CommandError::plain("settings.error.dictionary.duplicate"))
        },
        None => {
            proof {
                assert(!exists|k: int| 0 <= k < i && #[trigger] repeats_earlier(texts_view(claims@), k));
                assert(dictionary_problem(view, i as nat) is None);
            }
            if unnamed {
                proof {
                    assert(dictionary_problem(view, (i + 1) as nat) == Some(DictionaryProblem::Empty));
                    lemma_problem_persists(view, (i + 1) as nat, view.len());
                    reveal_strlit("settings.error.dictionary.empty");
                }
                Err(CommandError::plain("settings.error.dictionary.empty"))
            } else {
                Ok(())
            }
        },
    }
}

} // verus!
