use dile::engine::probe::{matched, matched_in_lowered, offers_gpu, passed, words, ProbeError, ProbeResult, SENTENCE, WORD_COUNT};
use dile::engine::queue::{Pending, Wake};
use dile::engine::state::{
    after_crash, percent_of, resting_for, EnginePayload, EngineSnapshot, EngineState, Respawn, Tier,
    BACKOFF_MS, MAX_RESTARTS,
};
use dile::engine::supervisor::{
    dictation_tier, duty, millis, needs_load, needs_retier, plan_tier, tier_after_probe, Duty, Halt,
    ProgressGate, TierPlan,
};
use dile::tray::Status;

#[test]
fn a_percentage_never_leaves_the_range_a_progress_bar_can_draw() {
    assert_eq!(percent_of(0, 100), 0);
    assert_eq!(percent_of(40, 100), 40);
    assert_eq!(percent_of(100, 100), 100);
    assert_eq!(percent_of(120, 100), 100);
    assert_eq!(percent_of(7, 0), 0);
    assert_eq!(percent_of(574_041_195, 574_041_195), 100);
    assert_eq!(percent_of(287_020_597, 574_041_195), 49);
    // The largest sizes still come out as whole per cent, not as a product that overflowed.
    assert_eq!(percent_of(u64::MAX, u64::MAX), 100);
    assert_eq!(percent_of(u64::MAX / 2, u64::MAX), 49);
}

#[test]
fn the_restart_policy_is_bounded_and_backs_off() {
    assert_eq!(MAX_RESTARTS, 3);
    let total: u64 = (1..=MAX_RESTARTS as u64).map(|attempt| BACKOFF_MS * attempt).sum();
    assert!(total < 3_000, "{total} ms is too long to wait");

    let mut restarts = 0;
    let mut waits = Vec::new();
    loop {
        let (next, answer) = after_crash(restarts);
        restarts = next;
        match answer {
            Respawn::After(ms) => waits.push(ms),
            Respawn::GiveUp => break,
        }
    }
    assert_eq!(waits, vec![400, 800, 1_200]);
    assert_eq!(restarts, 4);
}

#[test]
fn the_cpu_tier_is_the_one_the_tray_talks_about() {
    assert_eq!(resting_for(Tier::Vulkan), Status::Idle);
    assert_eq!(resting_for(Tier::Cpu), Status::CpuTier);
}

#[test]
fn every_state_has_a_distinct_name_and_only_the_right_ones_carry_a_tier() {
    let states = [
        EngineState::NoModel,
        EngineState::Downloading { percent: 40 },
        EngineState::Probing,
        EngineState::Ready { tier: Tier::Vulkan },
        EngineState::Busy,
        EngineState::Crashed,
        EngineState::Failed,
    ];
    let mut names: Vec<&str> = states.iter().map(|state| state.name()).collect();
    let count = names.len();
    names.sort_unstable();
    names.dedup();
    assert_eq!(names.len(), count, "two engine states share a name");

    assert_eq!(EngineState::Ready { tier: Tier::Cpu }.tier(), Some(Tier::Cpu));
    assert_eq!(EngineState::Busy.tier(), None);
    assert_eq!(EngineState::Downloading { percent: 40 }.percent(), Some(40));
    assert_eq!(EngineState::Probing.percent(), None);
}

#[test]
fn the_payload_carries_the_state_the_tier_the_model_and_the_progress() {
    let ready = EnginePayload::new(EngineState::Ready { tier: Tier::Vulkan }, Some("ggml-large-v3-q5_0.bin"));
    assert_eq!(ready.state, "ready");
    assert_eq!(ready.tier, Some("vulkan"));
    assert_eq!(ready.model.as_deref(), Some("ggml-large-v3-q5_0.bin"));
    assert_eq!(ready.progress, None);

    let downloading = EnginePayload::new(EngineState::Downloading { percent: 7 }, None);
    assert_eq!(downloading.state, "downloading");
    assert_eq!(downloading.progress, Some(7));
    assert_eq!(downloading.tier, None);

    let snapshot = EngineSnapshot::of(&ready);
    assert_eq!(snapshot.state, "ready");
    assert_eq!(snapshot.model.as_deref(), Some("ggml-large-v3-q5_0.bin"));
    assert_eq!(EngineSnapshot::default().state, "");
}

#[test]
fn the_queue_keeps_the_newest_recording_and_drops_the_one_behind_it() {
    let mut queue: Pending<Vec<f32>> = Pending::new();
    assert!(!queue.submit(vec![1.0, 1.0]));
    assert!(queue.submit(vec![2.0, 2.0, 2.0]), "the older recording is said to be dropped");
    match queue.take() {
        Some(Wake::Job(samples)) => assert_eq!(samples, vec![2.0, 2.0, 2.0]),
        _ => panic!("a submitted recording must come back as a job"),
    }
    assert!(queue.take().is_none(), "and nothing is left behind it");
}

#[test]
fn a_dead_engine_is_dealt_with_before_a_new_dictation() {
    let mut queue: Pending<Vec<f32>> = Pending::new();
    queue.submit(vec![0.5]);
    queue.host_down(3);
    match queue.take() {
        Some(Wake::HostDown(generation)) => assert_eq!(generation, 3),
        _ => panic!("the crash has to be handled first"),
    }
    assert!(matches!(queue.take(), Some(Wake::Job(_))));
}

#[test]
fn the_newest_generation_is_the_one_reported() {
    let mut queue: Pending<Vec<f32>> = Pending::new();
    queue.host_down(1);
    queue.host_down(2);
    queue.host_down(1);
    match queue.take() {
        Some(Wake::HostDown(generation)) => assert_eq!(generation, 2),
        _ => panic!("a crash must be reported"),
    }
}

#[test]
fn a_shutdown_outranks_everything_else_in_the_queue() {
    let mut queue: Pending<Vec<f32>> = Pending::new();
    queue.submit(vec![0.25]);
    queue.host_down(1);
    assert!(!queue.stopping());
    queue.stop();
    assert!(queue.stopping());
    assert!(matches!(queue.take(), Some(Wake::Stop)));
    assert!(matches!(queue.take(), Some(Wake::Stop)), "and it stays");
}

#[test]
fn a_new_probe_comes_before_a_new_tier_and_both_before_a_dictation() {
    let mut queue: Pending<Vec<f32>> = Pending::new();
    queue.submit(vec![0.1]);
    queue.retier();
    queue.reprobe();
    assert!(matches!(queue.take(), Some(Wake::Reprobe)));
    assert!(matches!(queue.take(), Some(Wake::Retier)));
    assert!(matches!(queue.take(), Some(Wake::Job(_))));
    assert!(queue.take().is_none());
}

#[test]
fn half_the_sentence_is_enough_and_a_third_of_it_is_not() {
    assert!(passed("bugün hava çok güzel"));
    assert!(!passed("hava deniz"));
}

#[test]
fn the_sentence_itself_passes_and_a_device_that_returns_nothing_does_not() {
    assert_eq!(matched(SENTENCE), WORD_COUNT);
    assert!(passed(SENTENCE));
    assert!(passed("BUGÜN HAVA ÇOK GÜZEL, VE DENİZ SAKİN!"));
    assert!(!passed(""));
    assert!(!passed("   "));
    assert!(!passed("[BLANK_AUDIO]"));
    assert!(!passed("Thank you for watching."));
}

#[test]
fn a_mangled_diacritic_does_not_pass_for_the_word_it_mangled() {
    assert_eq!(matched("bugun hava cok guzel ve deniz sakin"), 4);
    assert_eq!(matched("bugünkü havalar güzeldi"), 0);
}

#[test]
fn the_expected_words_are_the_sentence_and_are_already_lower_case() {
    let lowered = dile::engine::probe::to_lower(SENTENCE);
    for word in words() {
        assert_eq!(word, dile::engine::probe::to_lower(word));
        assert!(lowered.contains(word), "{word} is not a word of the sentence the clip says");
    }
    assert_eq!(words().len(), WORD_COUNT);
}

#[test]
fn a_probe_says_how_many_words_came_back_when_it_fails() {
    let failed = ProbeResult::heard("hava deniz", "Vulkan0".to_owned(), 900, 300);
    assert!(!failed.passed);
    assert_eq!(failed.words, 2);
    assert_eq!(failed.expected_words, 7);
    assert_eq!(failed.error.as_deref(), Some("the device returned 2 of 7 expected words"));

    let good = ProbeResult::heard(SENTENCE, "Vulkan0".to_owned(), 900, 300);
    assert!(good.passed);
    assert_eq!(good.error, None);

    let refused = ProbeResult::refused(&ProbeError::NoGpuSupport.message());
    assert!(!refused.passed);
    assert_eq!(refused.error.as_deref(), Some("the engine host was built without GPU support"));
    assert_eq!(
        ProbeError::ClipFormat { rate: 44_100, channels: 2 }.message(),
        "the probe clip is 44100 Hz with 2 channel(s), not 16 kHz mono"
    );
}

#[test]
fn only_a_host_built_with_the_gpu_path_is_probed() {
    assert!(offers_gpu(&vec!["cpu".to_owned(), "gpu-vulkan".to_owned()]));
    assert!(!offers_gpu(&vec!["cpu".to_owned()]));
    assert!(!offers_gpu(&Vec::new()));
}

#[test]
fn the_settings_outrank_the_probe_and_the_record_is_only_rewritten_when_it_disagrees() {
    assert_eq!(plan_tier(Some(Tier::Cpu), Some(Tier::Vulkan)), TierPlan::Use { tier: Tier::Cpu, rewrite: true });
    assert_eq!(plan_tier(Some(Tier::Cpu), Some(Tier::Cpu)), TierPlan::Use { tier: Tier::Cpu, rewrite: false });
    assert_eq!(plan_tier(None, Some(Tier::Vulkan)), TierPlan::Use { tier: Tier::Vulkan, rewrite: false });
    assert_eq!(plan_tier(None, None), TierPlan::Probe);
    assert_eq!(tier_after_probe(true), Tier::Vulkan);
    assert_eq!(tier_after_probe(false), Tier::Cpu);
    assert!(needs_load(None, Tier::Cpu));
    assert!(!needs_load(Some(Tier::Cpu), Tier::Cpu));
    assert!(!needs_retier(Some(Tier::Cpu), Some(Tier::Cpu)));
    assert!(needs_retier(None, Some(Tier::Cpu)));
    assert_eq!(dictation_tier(Some(Tier::Cpu), false), None);
}

#[test]
fn a_crash_signal_from_a_replaced_engine_is_ignored() {
    let wake: Wake<Vec<f32>> = Wake::HostDown(4);
    assert_eq!(duty(&wake, 4), Duty::Respawn);
    assert_eq!(duty(&wake, 5), Duty::Ignore);
    assert_eq!(duty(&Wake::Job(vec![0.0f32]), 5), Duty::Dictate);
}

#[test]
fn a_download_announces_each_percentage_once() {
    let mut gate = ProgressGate::new();
    assert_eq!(gate.advance(0, 200), Some(0));
    assert_eq!(gate.advance(1, 200), None);
    assert_eq!(gate.advance(2, 200), Some(1));
    assert_eq!(gate.advance(200, 200), Some(100));
    assert_eq!(gate.advance(250, 200), None);
}

#[test]
fn a_halt_carries_the_words_of_its_error_and_a_clock_saturates() {
    assert_eq!(Halt::from_error("no GPU"), Halt::Failed("no GPU".to_owned()));
    assert_eq!(millis(1_500), 1_500);
    assert_eq!(millis(u128::MAX), u64::MAX);
}

#[test]
fn words_are_matched_in_text_that_is_already_lowered() {
    assert_eq!(matched_in_lowered("bugün hava çok güzel ve deniz sakin."), 7);
    // Already lowered means it is not lowered again: capitals do not match.
    assert_eq!(matched_in_lowered("BUGÜN HAVA"), 0);
    assert_eq!(matched_in_lowered("hava güzel"), 2);
    // Whole words only.
    assert_eq!(matched_in_lowered("havadis"), 0);
}

#[test]
fn the_largest_download_is_still_whole_per_cent() {
    assert_eq!(percent_of(u64::MAX, u64::MAX), 100);
    assert_eq!(percent_of(u64::MAX - 1, u64::MAX), 99);
    assert_eq!(percent_of(u64::MAX, 1), 100);
}
