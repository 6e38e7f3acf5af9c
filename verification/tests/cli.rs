use dile::cli::{consent_to_download, download_percent, parse, resolve_tier, Failure, Parsed, USAGE};
use dile::engine::state::Tier;

fn arguments(words: &[&str]) -> Vec<String> {
    words.iter().map(|word| (*word).to_string()).collect()
}

#[test]
fn transcribe_takes_a_file_and_two_flags_and_nothing_else() {
    let parsed = parse(&arguments(&["transcribe", "take.wav", "--json", "--yes"]))
        .expect("this parses")
        .invocation()
        .expect("and it is an invocation");
    assert_eq!(parsed.file, "take.wav");
    assert!(parsed.json);
    assert!(parsed.consented);

    let plain = parse(&arguments(&["transcribe", "take.wav"])).expect("this parses").invocation().expect("an invocation");
    assert!(!plain.json);
    assert!(!plain.consented);
}

#[test]
fn the_flags_may_come_before_the_file() {
    let parsed = parse(&arguments(&["transcribe", "--json", "take.wav"])).expect("this parses").invocation().expect("an invocation");
    assert_eq!(parsed.file, "take.wav");
    assert!(parsed.json);
}

#[test]
fn help_and_version_are_answers_rather_than_invocations() {
    for word in ["--help", "-h", "help"] {
        assert_eq!(parse(&arguments(&[word])), Ok(Parsed::Usage), "`{word}` should print and stop");
    }
    for word in ["--version", "-V", "version"] {
        assert_eq!(parse(&arguments(&[word])), Ok(Parsed::Version), "`{word}` should print and stop");
    }
    assert_eq!(parse(&[]), Ok(Parsed::Usage));
}

#[test]
fn every_misuse_exits_with_two_and_points_at_the_help() {
    let misuses = [
        arguments(&["transcribe"]),
        arguments(&["dictate", "take.wav"]),
        arguments(&["transcribe", "take.wav", "--loud"]),
        arguments(&["transcribe", "one.wav", "two.wav"]),
    ];
    for misuse in misuses {
        let failure: Failure = parse(&misuse).expect_err("this is a misuse");
        assert_eq!(failure.code, 2, "{misuse:?} should be a misuse");
        assert_eq!(failure.hint.as_deref(), Some("dile --help"));
    }
    assert_eq!(
        parse(&arguments(&["dictate"])).expect_err("no such command").message,
        "there is no `dictate` command; the only one is `transcribe`"
    );
    assert_eq!(
        parse(&arguments(&["transcribe", "a.wav", "b.wav"])).expect_err("two files").message,
        "one file at a time; `b.wav` is a second one"
    );
}

#[test]
fn the_usage_names_the_one_command_and_the_two_options() {
    assert!(USAGE.contains("dile transcribe <file.wav> [--json] [--yes]"));
    assert!(!USAGE.contains("dile record"));
}

#[test]
fn the_tier_is_the_settings_then_the_record_and_never_a_guess() {
    assert_eq!(resolve_tier(Some(Tier::Cpu), Some(Tier::Vulkan)), Ok(Tier::Cpu));
    assert_eq!(resolve_tier(None, Some(Tier::Vulkan)), Ok(Tier::Vulkan));
    let failure = resolve_tier(None, None).expect_err("nothing decided");
    assert_eq!(failure.code, 1);
    assert!(failure.hint.is_some());
    assert_eq!(Failure::failed("x").code, 1);
}

#[test]
fn nothing_is_fetched_without_yes_and_the_question_says_what_and_where() {
    assert_eq!(consent_to_download("ggml-large-v3-q5_0.bin", 1_081, "https://huggingface.co/x", true), Ok(()));
    let asked = consent_to_download("ggml-large-v3-q5_0.bin", 1_081, "https://huggingface.co/x", false)
        .expect_err("no consent, no download");
    assert_eq!(asked.code, 1);
    assert_eq!(
        asked.message,
        "the ggml-large-v3-q5_0.bin tier needs ggml-large-v3-q5_0.bin (1081 MB), which is not on this machine"
    );
    assert_eq!(
        asked.hint.as_deref(),
        Some("it is downloaded from huggingface.co and nothing else is sent; run it again with --yes to agree, or start Dile and let it ask: https://huggingface.co/x")
    );
}

#[test]
fn a_machine_with_no_tier_is_told_how_to_get_one() {
    let failure = resolve_tier(None, None).expect_err("nothing decided");
    assert_eq!(
        failure.hint.as_deref(),
        Some("start Dile once — it probes the GPU on first run — or set Settings > Engine > Tier")
    );
}

#[test]
fn the_download_line_shows_whole_per_cent() {
    assert_eq!(download_percent(0, 1_000), 0);
    assert_eq!(download_percent(505, 1_000), 50);
    assert_eq!(download_percent(1_000, 1_000), 100);
    assert_eq!(download_percent(7, 0), 0);
    // More than fits a byte reads as done.
    assert_eq!(download_percent(3_000, 1_000), 100);
}
