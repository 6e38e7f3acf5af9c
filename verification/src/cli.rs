//! `dile transcribe <file>`: the grammar of the command line, the failures it answers with,
//! and which tier it runs on.

use vstd::prelude::*;
use vstd::string::*;

use crate::engine::state::Tier;
use crate::settings::opt_string_view;
use crate::text::{decimal, decimal_of, same_text};

verus! {

/// What the command prints when it is asked, and when it is misused.
pub const USAGE: &'static str = "dile — hold a key, speak, let go. This is the part without the key.

USAGE
    dile transcribe <file.wav> [--json] [--yes]

ARGUMENTS
    <file.wav>   A WAV file. Any sample rate, any channel count; it is converted
                 to the 16 kHz mono the engine takes, by the same converter the
                 microphone path uses.

OPTIONS
    --json       Print one JSON object instead of the text: raw, cleaned,
                 segments, took_ms, device, model.
    --yes        Agree to download the model this machine's tier needs, if it is
                 not on disk yet. Without it, the question is printed and
                 nothing is fetched.
    -h, --help   Print this.
    -V, --version
                 Print the version.

WHAT IT READS
    The settings window's own settings.json — strictness, dictionary, tier
    override — and the tier this machine decided on when Dile first ran. The
    dictionary becomes the decoder's prompt exactly as it does for a dictation.

EXIT CODES
    0  the text was printed
    1  something failed and said so on stderr
    2  the arguments do not name a thing to do";

/// A failure with the exit code it deserves, and sometimes the line that fixes it.
#[derive(Clone, Debug, PartialEq, Eq)]
pub struct Failure {
    /// What went wrong, as one sentence with no full stop.
    pub message: String,
    /// What to do about it, when there is something to do.
    pub hint: Option<String>,
    /// 1 for a failure, 2 for a misuse.
    pub code: u8,
}

/// The hint every misuse points at.
pub open spec fn help_hint() -> Seq<char> {
    "dile --help"@
}

impl Failure {
    /// Something went wrong.
    pub fn failed(message: &str) -> (failure: Failure)
        ensures
            failure.message@ == message@,
            failure.hint is None,
            failure.code == 1,
    {
        Failure { message: String::from_str(message), hint: None, code: 1 }
    }

    /// Something went wrong, and there is a line that fixes it.
    pub fn fix(message: &str, hint: &str) -> (failure: Failure)
        ensures
            failure.message@ == message@,
            failure.hint is Some && failure.hint->0@ == hint@,
            failure.code == 1,
    {
        Failure { message: String::from_str(message), hint: Some(String::from_str(hint)), code: 1 }
    }

    /// The arguments do not name a thing to do.
    pub fn misused(message: &str) -> (failure: Failure)
        ensures
            failure.message@ == message@,
            failure.hint is Some && failure.hint->0@ == help_hint(),
            failure.code == 2,
    {
        Failure {
            message: String::from_str(message),
            hint: Some(String::from_str("dile --help")),
            code: 2,
        }
    }
}

/// What the arguments asked to transcribe.
#[derive(Clone, Debug, PartialEq, Eq)]
pub struct Invocation {
    /// The file to transcribe.
    pub file: String,
    /// Print JSON instead of the text.
    pub json: bool,
    /// Agree to a model download.
    pub consented: bool,
}

/// What the arguments asked for.
#[derive(Clone, Debug, PartialEq, Eq)]
pub enum Parsed {
    /// Print the usage and stop.
    Usage,
    /// Print the version and stop.
    Version,
    /// Transcribe a file.
    Transcribe(Invocation),
}

impl Parsed {
    /// The transcription asked for, when the answer was not printed instead.
    pub fn invocation(self) -> (invocation: Option<Invocation>)
        ensures
            match self {
                Parsed::Transcribe(asked) => invocation == Some(asked),
                _ => invocation is None,
            },
    {
        match self {
            Parsed::Transcribe(invocation) => Some(invocation),
            _ => None,
        }
    }
}

/// What the arguments ask for, as plain values: the usage, the version, a transcription of
/// a file with its two switches, or a misuse with the sentence it is reported with.
pub enum ParsedSpec {
    /// Print the usage.
    Usage,
    /// Print the version.
    Version,
    /// Transcribe `file`.
    Transcribe { file: Seq<char>, json: bool, consented: bool },
    /// A misuse.
    Misuse { message: Seq<char> },
}

/// The options after `transcribe`, read from the front: the file so far and the two
/// switches, or the sentence the first misuse is reported with.
pub open spec fn scan(rest: Seq<Seq<char>>, file: Option<Seq<char>>, json: bool, consented: bool) -> Result<
    (Option<Seq<char>>, bool, bool),
    Seq<char>,
>
    decreases rest.len(),
{
    if rest.len() == 0 {
        Ok((file, json, consented))
    } else {
        let argument = rest[0];
        if argument == "--json"@ {
            scan(rest.drop_first(), file, true, consented)
        } else if argument == "--yes"@ || argument == "-y"@ {
            scan(rest.drop_first(), file, json, true)
        } else if argument.len() > 0 && argument[0] == '-' {
            Err("`"@ + argument + "` is not an option here"@)
        } else if file is None {
            scan(rest.drop_first(), Some(argument), json, consented)
        } else {
            Err("one file at a time; `"@ + argument + "` is a second one"@)
        }
    }
}

/// What a command line asks for.
pub open spec fn parse_spec(arguments: Seq<Seq<char>>) -> ParsedSpec {
    if arguments.len() == 0 {
        ParsedSpec::Usage
    } else {
        let first = arguments[0];
        if first == "-h"@ || first == "--help"@ || first == "help"@ {
            ParsedSpec::Usage
        } else if first == "-V"@ || first == "--version"@ || first == "version"@ {
            ParsedSpec::Version
        } else if first != "transcribe"@ {
            ParsedSpec::Misuse {
                message: "there is no `"@ + first + "` command; the only one is `transcribe`"@,
            }
        } else {
            match scan(arguments.drop_first(), None, false, false) {
                Err(message) => ParsedSpec::Misuse { message },
                Ok((None, _, _)) => ParsedSpec::Misuse {
                    message: "`transcribe` needs a file to transcribe"@,
                },
                Ok((Some(file), json, consented)) => ParsedSpec::Transcribe { file, json, consented },
            }
        }
    }
}

/// Whether a parse answered what the arguments ask for.
pub open spec fn parse_matches(parsed: Result<Parsed, Failure>, spec: ParsedSpec) -> bool {
    match spec {
        ParsedSpec::Usage => parsed == Ok::<Parsed, Failure>(Parsed::Usage),
        ParsedSpec::Version => parsed == Ok::<Parsed, Failure>(Parsed::Version),
        ParsedSpec::Transcribe { file, json, consented } => parsed is Ok && parsed->Ok_0 is Transcribe
            && parsed->Ok_0->Transcribe_0.file@ == file && parsed->Ok_0->Transcribe_0.json == json
            && parsed->Ok_0->Transcribe_0.consented == consented,
        ParsedSpec::Misuse { message } => parsed is Err && parsed->Err_0.message@ == message
            && parsed->Err_0.code == 2 && parsed->Err_0.hint == Some(
            parsed->Err_0.hint->0,
        ) && parsed->Err_0.hint->0@ == help_hint(),
    }
}

/// The arguments as plain values.
pub open spec fn arguments_view(arguments: Seq<String>) -> Seq<Seq<char>> {
    arguments.map_values(|argument: String| argument@)
}

/// A sentence with one argument quoted inside it.
fn quoted(before: &str, argument: &str, after: &str) -> (sentence: String)
    ensures
        sentence@ == before@ + argument@ + after@,
{
    let mut sentence = String::from_str(before);
    sentence.append(argument);
    sentence.append(after);
    sentence
}

/// Parse the arguments, or say why they do not name a thing to do.
pub fn parse(arguments: &[String]) -> (parsed: Result<Parsed, Failure>)
    ensures
        parse_matches(parsed, parse_spec(arguments_view(arguments@))),
{
    let ghost args = arguments_view(arguments@);
    if arguments.len() == 0 {
        return Ok(Parsed::Usage);
    }
    let first = arguments[0].as_str();
    proof {
        assert(args[0] == first@);
    }
    if same_text(first, "-h") || same_text(first, "--help") || same_text(first, "help") {
        return Ok(Parsed::Usage);
    }
    if same_text(first, "-V") || same_text(first, "--version") || same_text(first, "version") {
        return Ok(Parsed::Version);
    }
    if !same_text(first, "transcribe") {
        let message = quoted("there is no `", first, "` command; the only one is `transcribe`");
        return Err(Failure::misused(message.as_str()));
    }
    let mut file: Option<String> = None;
    let mut json = false;
    let mut consented = false;
    let mut i: usize = 1;
    proof {
        assert(args.drop_first().skip(0) =~= args.drop_first());
    }
    while i < arguments.len()
        invariant
            args == arguments_view(arguments@),
            1 <= i <= arguments@.len(),
            args[0] == "transcribe"@,
            scan(args.drop_first(), None, false, false) == scan(
                args.skip(i as int),
                opt_string_view(file),
                json,
                consented,
            ),
        decreases arguments@.len() - i,
    {
        let argument = arguments[i].as_str();
        proof {
            assert(args.skip(i as int)[0] == argument@);
            assert(args.skip(i as int).drop_first() =~= args.skip(i + 1));
            if i == 1 {
                assert(args.skip(1) =~= args.drop_first());
            }
        }
        if same_text(argument, "--json") {
            json = true;
        } else if same_text(argument, "--yes") || same_text(argument, "-y") {
            consented = true;
        } else if argument.unicode_len() > 0 && argument.get_char(0) == '-' {
            let message = quoted("`", argument, "` is not an option here");
            proof {
                assert(argument@ != "--json"@);
                assert(argument@ != "--yes"@ && argument@ != "-y"@);
                assert(scan(args.skip(i as int), opt_string_view(file), json, consented) == Err::<
                    (Option<Seq<char>>, bool, bool),
                    Seq<char>,
                >(message@));
                reveal_strlit("transcribe");
                reveal_strlit("-h");
                reveal_strlit("--help");
                reveal_strlit("help");
                reveal_strlit("-V");
                reveal_strlit("--version");
                reveal_strlit("version");
                assert("transcribe"@[0] != "-h"@[0] && "transcribe"@[0] != "--help"@[0] && "transcribe"@[0] != "-V"@[0] && "transcribe"@[0] != "--version"@[0]);
                assert("transcribe"@.len() != "help"@.len() && "transcribe"@.len() != "version"@.len());
            }
            return Err(Failure::misused(message.as_str()));
        } else if file.is_none() {
            file = Some(String::from_str(argument));
        } else {
            let message = quoted("one file at a time; `", argument, "` is a second one");
            proof {
                assert(argument@ != "--json"@);
                assert(argument@ != "--yes"@ && argument@ != "-y"@);
                assert(!(argument@.len() > 0 && argument@[0] == '-'));
                assert(scan(args.skip(i as int), opt_string_view(file), json, consented) == Err::<
                    (Option<Seq<char>>, bool, bool),
                    Seq<char>,
                >(message@));
                reveal_strlit("transcribe");
                reveal_strlit("-h");
                reveal_strlit("--help");
                reveal_strlit("help");
                reveal_strlit("-V");
                reveal_strlit("--version");
                reveal_strlit("version");
                assert("transcribe"@[0] != "-h"@[0] && "transcribe"@[0] != "--help"@[0] && "transcribe"@[0] != "-V"@[0] && "transcribe"@[0] != "--version"@[0]);
                assert("transcribe"@.len() != "help"@.len() && "transcribe"@.len() != "version"@.len());
            }
            return Err(Failure::misused(message.as_str()));
        }
        i += 1;
    }
    proof {
        assert(args.skip(i as int) =~= Seq::<Seq<char>>::empty());
    }
    proof {
        reveal_strlit("transcribe");
        reveal_strlit("-h");
        reveal_strlit("--help");
        reveal_strlit("help");
        reveal_strlit("-V");
        reveal_strlit("--version");
        reveal_strlit("version");
        assert("transcribe"@[0] != "-h"@[0] && "transcribe"@[0] != "--help"@[0] && "transcribe"@[0] != "-V"@[0] && "transcribe"@[0] != "--version"@[0]);
        assert("transcribe"@.len() != "help"@.len() && "transcribe"@.len() != "version"@.len());
    }
    match file {
        Some(file) => Ok(Parsed::Transcribe(Invocation { file, json, consented })),
        None => Err(Failure::misused("`transcribe` needs a file to transcribe")),
    }
}

/// Which tier this machine runs on: what the user said, then what the probe found, and a
/// failure with the line that fixes it when there is neither.
pub fn resolve_tier(tier_override: Option<Tier>, recorded: Option<Tier>) -> (tier: Result<Tier, Failure>)
    ensures
        match tier_override {
            Some(wanted) => tier == Ok::<Tier, Failure>(wanted),
            None => match recorded {
                Some(decided) => tier == Ok::<Tier, Failure>(decided),
                None => tier is Err && tier->Err_0.code == 1 && tier->Err_0.message@
                    == "this machine has not chosen an engine tier yet"@ && tier->Err_0.hint
                    is Some && tier->Err_0.hint->0@
                    == "start Dile once — it probes the GPU on first run — or set Settings > Engine > Tier"@,
            },
        },
{
    if let Some(wanted) = tier_override {
        return Ok(wanted);
    }
    match recorded {
        Some(decided) => Ok(decided),
        None => Err(
            Failure::fix(
                "this machine has not chosen an engine tier yet",
                "start Dile once — it probes the GPU on first run — or set Settings > Engine > Tier",
            ),
        ),
    }
}

/// The question a missing model is answered with: which file, how large, and where it comes
/// from.
pub open spec fn download_question(file: Seq<char>, size_mb: u64) -> Seq<char> {
    "the "@ + file + " tier needs "@ + file + " ("@ + decimal_of(size_mb as nat)
        + " MB), which is not on this machine"@
}

/// The line that says how to agree to a download.
pub open spec fn download_hint(url: Seq<char>) -> Seq<char> {
    "it is downloaded from huggingface.co and nothing else is sent; run it again with --yes to agree, or start Dile and let it ask: "@
        + url
}

/// Whether a missing model may be fetched: only with `--yes`. Without it the command stops
/// with the question, the model's size and where it comes from, and nothing is fetched.
pub fn consent_to_download(file: &str, size_mb: u64, url: &str, consented: bool) -> (asked:
    Result<(), Failure>)
    ensures
        consented ==> asked is Ok,
        !consented ==> asked is Err && asked->Err_0.code == 1 && asked->Err_0.message@
            == download_question(file@, size_mb) && asked->Err_0.hint is Some
            && asked->Err_0.hint->0@ == download_hint(url@),
{
    if consented {
        return Ok(());
    }
    let mut message = String::from_str("the ");
    message.append(file);
    message.append(" tier needs ");
    message.append(file);
    message.append(" (");
    let size = decimal(size_mb);
    message.append(size.as_str());
    message.append(" MB), which is not on this machine");
    let mut hint = String::from_str(
        "it is downloaded from huggingface.co and nothing else is sent; run it again with --yes to agree, or start Dile and let it ask: ",
    );
    hint.append(url);
    proof {
        assert(message@ =~= download_question(file@, size_mb));
        assert(hint@ =~= download_hint(url@));
    }
    Err(Failure { message, hint: Some(hint), code: 1 })
}

/// The per cent a download line shows: `done` × 100, saturating, divided by `total`; 0 when
/// the total is unknown, and 100 when the quotient does not fit a byte.
pub open spec fn download_percent_spec(done: u64, total: u64) -> u8 {
    if total == 0 {
        0
    } else {
        let product = if done * 100 > u64::MAX { u64::MAX as int } else { done * 100 };
        let quotient = product / (total as int);
        if quotient > 255 {
            100
        } else {
            quotient as u8
        }
    }
}

/// The per cent the command line prints while a model downloads.
pub fn download_percent(done: u64, total: u64) -> (percent: u8)
    ensures
        percent == download_percent_spec(done, total),
        total > 0 && done <= total ==> percent <= 100,
{
    let product = match done.checked_mul(100) {
        Some(product) => product,
        None => u64::MAX,
    };
    let quotient = if total == 0 {
        0
    } else {
        product / total
    };
    proof {
        if total > 0 && done <= total {
            if done * 100 <= u64::MAX {
                assert(done * 100 / (total as int) <= 100) by (nonlinear_arith)
                    requires
                        done <= total,
                        total > 0,
                ;
            } else {
                assert((u64::MAX as int) / (total as int) <= 100) by (nonlinear_arith)
                    requires
                        done * 100 > u64::MAX,
                        done <= total,
                        total > 0,
                ;
            }
        }
    }
    if quotient > 255 {
        100
    } else {
        quotient as u8
    }
}

} // verus!

