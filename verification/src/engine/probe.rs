//! The two seconds of Turkish that decide which tier a machine runs on, and what counts as
//! the device having heard them.

use vstd::prelude::*;
use vstd::string::*;

use crate::text::{ascii_lower, chars_of, decimal, decimal_of, push_all, same_text, string_of};

verus! {

/// What the clip says.
pub const SENTENCE: &'static str = "Bugün hava çok güzel ve deniz sakin.";

/// How many words a device has to produce enough of.
pub const WORD_COUNT: usize = 7;

/// The words a device has to produce enough of, lower-case under Turkish casing rules.
pub open spec fn words_spec() -> Seq<Seq<char>> {
    seq!["bugün"@, "hava"@, "çok"@, "güzel"@, "ve"@, "deniz"@, "sakin"@]
}

/// The words a device has to produce enough of, lower-case under Turkish casing rules.
pub fn words() -> (words: Vec<&'static str>)
    ensures
        words@.len() == WORD_COUNT,
        forall|k: int| 0 <= k < WORD_COUNT ==> #[trigger] words@[k]@ == words_spec()[k],
{
    vec!["bugün", "hava", "çok", "güzel", "ve", "deniz", "sakin"]
}

/// What `char::to_lowercase` gives for one character.
pub uninterp spec fn lowercase_of(c: char) -> Seq<char>;

/// `char::to_lowercase`, collected: the lower-case form of one character under Unicode's
/// default mapping, which may be more than one character; an ASCII character maps to its
/// ASCII lower case, and only that.
#[verifier::external_body]
fn lowercase_chars(c: char) -> (lower: Vec<char>)
    ensures
        lower@ == lowercase_of(c),
        (c as u32) < 128 ==> lower@ == seq![ascii_lower(c)],
{
    c.to_lowercase().collect()
}

/// One character in lower case under Turkish rules: the dotless capital I is `ı`, the dotted
/// capital İ is `i`, and everything else follows Unicode's default mapping.
pub open spec fn turkish_lower_char(c: char) -> Seq<char> {
    if c == 'I' {
        seq!['ı']
    } else if c == 'İ' {
        seq!['i']
    } else {
        lowercase_of(c)
    }
}

/// A text in lower case under Turkish rules.
pub open spec fn turkish_lowered(s: Seq<char>) -> Seq<char>
    decreases s.len(),
{
    if s.len() == 0 {
        s
    } else {
        turkish_lowered(s.drop_last()) + turkish_lower_char(s.last())
    }
}

/// A text in lower case under Turkish rules.
pub fn to_lower(text: &str) -> (lowered: String)
    ensures
        lowered@ == turkish_lowered(text@),
{
    let chars = chars_of(text);
    let mut out: Vec<char> = Vec::new();
    let mut i: usize = 0;
    while i < chars.len()
        invariant
            chars@ == text@,
            i <= chars@.len(),
            out@ == turkish_lowered(text@.subrange(0, i as int)),
        decreases chars@.len() - i,
    {
        let c = chars[i];
        proof {
            assert(text@.subrange(0, i + 1).drop_last() =~= text@.subrange(0, i as int));
        }
        if c == 'I' {
            out.push('ı');
            proof {
                assert(out@ =~= turkish_lowered(text@.subrange(0, i + 1)));
            }
        } else if c == 'İ' {
            out.push('i');
            proof {
                assert(out@ =~= turkish_lowered(text@.subrange(0, i + 1)));
            }
        } else {
            let lower = lowercase_chars(c);
            push_all(&mut out, lower.as_slice());
        }
        i += 1;
    }
    proof {
        assert(text@.subrange(0, text@.len() as int) =~= text@);
    }
    string_of(out.as_slice())
}

/// Whether `c` is a letter or a digit, as `char::is_alphanumeric` reads it.
pub uninterp spec fn alphanumeric(c: char) -> bool;

/// `char::is_alphanumeric`: Unicode's Alphabetic property or a numeric character; among ASCII
/// characters, exactly the letters and the digits.
#[verifier::external_body]
fn is_alphanumeric(c: char) -> (b: bool)
    ensures
        b == alphanumeric(c),
        (c as u32) < 128 ==> (b <==> (('a' <= c && c <= 'z') || ('A' <= c && c <= 'Z') || ('0'
            <= c && c <= '9'))),
{
    c.is_alphanumeric()
}

/// `word` stands in `text` at `at` as a whole word: nothing alphanumeric touches either end.
pub open spec fn whole_word_at(text: Seq<char>, word: Seq<char>, at: int) -> bool {
    &&& 0 <= at
    &&& at + word.len() <= text.len()
    &&& text.subrange(at, at + word.len()) == word
    &&& (at == 0 || !alphanumeric(text[at - 1]))
    &&& (at + word.len() == text.len() || !alphanumeric(text[at + word.len()]))
}

/// Whether `word` stands somewhere in `text` as a whole word.
pub open spec fn has_word(text: Seq<char>, word: Seq<char>) -> bool {
    exists|at: int| whole_word_at(text, word, at)
}

/// How many of the first `n` expected words stand in `text` as whole words.
pub open spec fn count_words(text: Seq<char>, n: nat) -> nat
    decreases n,
{
    if n == 0 {
        0
    } else {
        count_words(text, (n - 1) as nat) + if has_word(text, words_spec()[n - 1]) {
            1nat
        } else {
            0nat
        }
    }
}

/// How many of the expected words a transcript holds, compared after Turkish lower-casing.
pub open spec fn matched_spec(text: Seq<char>) -> nat {
    count_words(turkish_lowered(text), WORD_COUNT as nat)
}

/// Whether `word` stands in `text` at `at` as a whole word.
fn word_at(text: &Vec<char>, word: &Vec<char>, at: usize) -> (found: bool)
    requires
        at <= text@.len(),
    ensures
        found == whole_word_at(text@, word@, at as int),
{
    if word.len() > text.len() - at {
        return false;
    }
    let mut j: usize = 0;
    while j < word.len()
        invariant
            at + word@.len() <= text@.len(),
            at + word.len() <= text.len(),
            j <= word@.len(),
            forall|k: int| 0 <= k < j ==> text@[at + k] == word@[k],
        decreases word@.len() - j,
    {
        if text[at + j] != word[j] {
            proof {
                assert(text@.subrange(at as int, at + word@.len())[j as int] != word@[j as int]);
            }
            return false;
        }
        j += 1;
    }
    proof {
        assert(text@.subrange(at as int, at + word@.len()) =~= word@);
    }
    let end = at + word.len();
    let open_before = at == 0 || !is_alphanumeric(text[at - 1]);
    let open_after = end == text.len() || !is_alphanumeric(text[end]);
    open_before && open_after
}

/// Whether `word` stands anywhere in `text` as a whole word.
fn contains_word(text: &Vec<char>, word: &Vec<char>) -> (found: bool)
    ensures
        found == has_word(text@, word@),
{
    let mut at: usize = 0;
    while at < text.len()
        invariant
            at <= text@.len(),
            forall|k: int| 0 <= k < at ==> !whole_word_at(text@, word@, k),
        decreases text@.len() - at,
    {
        if word_at(text, word, at) {
            return true;
        }
        at += 1;
    }
    if word_at(text, word, at) {
        return true;
    }
    proof {
        assert forall|k: int| !whole_word_at(text@, word@, k) by {
            if 0 <= k && k < at {
            }
        }
    }
    false
}

/// How many of the expected words stand as whole words in a transcript that is already in
/// lower case, diacritics kept.
pub fn matched_in_lowered(lowered: &str) -> (count: usize)
    ensures
        count as nat == count_words(lowered@, WORD_COUNT as nat),
        count <= WORD_COUNT,
{
    let spoken = chars_of(lowered);
    let expected = words();
    let mut count: usize = 0;
    let mut k: usize = 0;
    while k < expected.len()
        invariant
            expected@.len() == WORD_COUNT,
            forall|m: int| 0 <= m < WORD_COUNT ==> #[trigger] expected@[m]@ == words_spec()[m],
            spoken@ == lowered@,
            k <= WORD_COUNT,
            count as nat == count_words(spoken@, k as nat),
            count <= k,
        decreases WORD_COUNT - k,
    {
        let word = chars_of(expected[k]);
        if contains_word(&spoken, &word) {
            count += 1;
        }
        k += 1;
    }
    count
}

/// How many of the expected words a transcript contains: whole words, compared after Turkish
/// lower-casing, with diacritics kept.
pub fn matched(text: &str) -> (count: usize)
    ensures
        count as nat == matched_spec(text@),
        count <= WORD_COUNT,
{
    let lowered = to_lower(text);
    matched_in_lowered(lowered.as_str())
}

/// Whether a transcript is good enough to trust the device that produced it: at least half
/// of the expected words.
pub fn passed(text: &str) -> (passed: bool)
    ensures
        passed == (matched_spec(text@) * 2 >= WORD_COUNT),
{
    matched(text) * 2 >= WORD_COUNT
}

/// The reasons a machine does not get the Vulkan tier.
#[derive(Clone, Debug, PartialEq, Eq)]
pub enum ProbeError {
    /// The embedded clip did not decode.
    Clip(String),
    /// The embedded clip decoded and is not the shape the capture stage produces.
    ClipFormat { rate: u32, channels: u16 },
    /// The engine host was built without GPU support, so there is no GPU path to probe.
    NoGpuSupport,
    /// The probe was forced to fail, so the fallback path can be exercised.
    Forced,
    /// The device answered, and what it wrote was not the sentence.
    WrongWords { matched: usize, expected: usize },
}

/// The sentence a probe error is reported with.
pub open spec fn probe_error_message(error: ProbeError) -> Seq<char> {
    match error {
        ProbeError::Clip(reason) => "the probe clip did not decode: "@ + reason@,
        ProbeError::ClipFormat { rate, channels } => "the probe clip is "@ + decimal_of(rate as nat)
            + " Hz with "@ + decimal_of(channels as nat) + " channel(s), not 16 kHz mono"@,
        ProbeError::NoGpuSupport => "the engine host was built without GPU support"@,
        ProbeError::Forced => "the probe was forced to fail by DILE_FORCE_PROBE_FAIL"@,
        ProbeError::WrongWords { matched, expected } => "the device returned "@ + decimal_of(
            matched as nat,
        ) + " of "@ + decimal_of(expected as nat) + " expected words"@,
    }
}

impl ProbeError {
    /// The sentence this error is reported with.
    pub fn message(&self) -> (message: String)
        ensures
            message@ == probe_error_message(*self),
    {
        match self {
            ProbeError::Clip(reason) => {
                let mut message = String::from_str("the probe clip did not decode: ");
                message.append(reason.as_str());
                message
            },
            ProbeError::ClipFormat { rate, channels } => {
                let mut message = String::from_str("the probe clip is ");
                message.append(decimal(*rate as u64).as_str());
                message.append(" Hz with ");
                message.append(decimal(*channels as u64).as_str());
                message.append(" channel(s), not 16 kHz mono");
                message
            },
            ProbeError::NoGpuSupport => String::from_str(
                "the engine host was built without GPU support",
            ),
            ProbeError::Forced => String::from_str(
                "the probe was forced to fail by DILE_FORCE_PROBE_FAIL",
            ),
            ProbeError::WrongWords { matched, expected } => {
                let mut message = String::from_str("the device returned ");
                message.append(decimal(*matched as u64).as_str());
                message.append(" of ");
                message.append(decimal(*expected as u64).as_str());
                message.append(" expected words");
                message
            },
        }
    }
}

/// What a probe found, whichever way it went.
#[derive(Clone, Debug, PartialEq, Eq)]
pub struct ProbeResult {
    /// Whether the device is trusted with dictation.
    pub passed: bool,
    /// The device the engine said it ran on.
    pub device: String,
    /// How long the model took to load, in milliseconds.
    pub load_ms: u64,
    /// How long the probe transcription took, in milliseconds.
    pub probe_ms: u64,
    /// How many of the expected words came back.
    pub words: usize,
    /// How many words were expected.
    pub expected_words: usize,
    /// Why it did not pass, when it did not.
    pub error: Option<String>,
}

impl ProbeResult {
    /// A probe that could not be run to an answer, with the reason it gives.
    pub fn refused(reason: &str) -> (result: ProbeResult)
        ensures
            !result.passed,
            result.device@ == Seq::<char>::empty(),
            result.load_ms == 0,
            result.probe_ms == 0,
            result.words == 0,
            result.expected_words == 0,
            result.error is Some && result.error->0@ == reason@,
    {
        ProbeResult {
            passed: false,
            device: String::new(),
            load_ms: 0,
            probe_ms: 0,
            words: 0,
            expected_words: 0,
            error: Some(String::from_str(reason)),
        }
    }

    /// The answer a device gave: the transcript decides, and a failure says how many words
    /// came back.
    pub fn heard(text: &str, device: String, load_ms: u64, probe_ms: u64) -> (result: ProbeResult)
        ensures
            result.passed == (matched_spec(text@) * 2 >= WORD_COUNT),
            result.device@ == device@,
            result.load_ms == load_ms,
            result.probe_ms == probe_ms,
            result.words as nat == matched_spec(text@),
            result.expected_words == WORD_COUNT,
            result.passed ==> result.error is None,
            !result.passed ==> result.error is Some && result.error->0@ == probe_error_message(
                ProbeError::WrongWords { matched: result.words, expected: WORD_COUNT },
            ),
    {
        let words = matched(text);
        let passed = words * 2 >= WORD_COUNT;
        let error = if passed {
            None
        } else {
            Some(ProbeError::WrongWords { matched: words, expected: WORD_COUNT }.message())
        };
        ProbeResult { passed, device, load_ms, probe_ms, words, expected_words: WORD_COUNT, error }
    }
}

/// Whether an engine host's features include the GPU path the probe needs.
pub fn offers_gpu(features: &Vec<String>) -> (offered: bool)
    ensures
        offered == exists|k: int| 0 <= k < features@.len() && #[trigger] features@[k]@ == "gpu-vulkan"@,
{
    let mut k: usize = 0;
    while k < features.len()
        invariant
            k <= features@.len(),
            forall|m: int| 0 <= m < k ==> !(#[trigger] features@[m]@ == "gpu-vulkan"@),
        decreases features@.len() - k,
    {
        if same_text(features[k].as_str(), "gpu-vulkan") {
            return true;
        }
        k += 1;
    }
    false
}

} // verus!
