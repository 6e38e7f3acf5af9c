use dile::capture::config::{CaptureConfig, SourceSpec, State, MAX_CAP_SECS, MIN_CAP_SECS};
use dile::capture::device::{
    device_rows, disambiguate, is_discard_device, short_id, tidy_name, DeviceInfo,
};
use dile::capture::pipeline::Pipeline;
use dile::capture::preroll::PreRoll;
use dile::capture::source::{ring_capacity, ring_split};
use dile::capture::speech::{samples_to_duration, Decision, SpeechSummary, SpeechTracker, Vad};
use std::time::Duration;

#[test]
fn the_default_config_is_the_one_the_spec_names() {
    let config = CaptureConfig::default();
    assert_eq!(config.pre_roll_ms, 500);
    assert_eq!(config.cap_secs, 60);
    assert_eq!(config.level_interval_ms, 50, "50 ms is 20 Hz, the panel's floor");
    assert_eq!(config.device, None);
    assert_eq!(config.clamped(), config, "the defaults are already in range");
}

#[test]
fn an_out_of_range_cap_is_clamped_rather_than_rejected() {
    let too_long = CaptureConfig { cap_secs: 600, ..CaptureConfig::default() };
    assert_eq!(too_long.clamped().cap_secs, MAX_CAP_SECS);

    let zero = CaptureConfig { cap_secs: 0, ..CaptureConfig::default() };
    assert_eq!(zero.clamped().cap_secs, MIN_CAP_SECS);

    let silly = CaptureConfig { level_interval_ms: 0, pre_roll_ms: 60_000, ..CaptureConfig::default() };
    let clamped = silly.clamped();
    assert_eq!(clamped.level_interval_ms, 5);
    assert_eq!(clamped.pre_roll_ms, 5_000);
}

#[test]
fn a_spec_is_the_two_numbers_the_converter_needs() {
    let spec = SourceSpec::new(44_100, 2);
    assert_eq!(spec.sample_rate, 44_100);
    assert_eq!(spec.channels, 2);
}

#[test]
fn a_published_state_reads_back_as_itself_and_anything_else_as_armed() {
    for state in [State::Armed, State::Recording, State::Capped] {
        assert_eq!(State::from_u8(state.code()), state);
    }
    assert_eq!(State::from_u8(7), State::Armed);
}

#[test]
fn the_ring_between_callback_and_worker_holds_half_a_second_and_never_too_little() {
    assert_eq!(ring_capacity(SourceSpec::new(48_000, 2)), 48_000);
    assert_eq!(ring_capacity(SourceSpec::new(44_100, 1)), 22_050);
    assert_eq!(ring_capacity(SourceSpec::new(8_001, 1)), 8_192);
    assert_eq!(ring_capacity(SourceSpec::new(48_001, 1)), 24_001);
    assert_eq!(ring_capacity(SourceSpec::new(16_000, 0)), 8_192);
}

fn device(name: &str, id: &str) -> DeviceInfo {
    DeviceInfo { name: name.to_owned(), id: id.to_owned(), is_default: false }
}

#[test]
fn an_alsa_name_loses_the_separator_its_second_field_never_filled() {
    assert_eq!(tidy_name("sof-hda-dsp, ", "alsa:hw:CARD=0,DEV=0"), "sof-hda-dsp");
    assert_eq!(tidy_name("  HDA Intel PCH,  ", "alsa:hw:CARD=0"), "HDA Intel PCH");
}

#[test]
fn a_name_with_a_real_second_field_is_left_alone() {
    assert_eq!(tidy_name("sof-hda-dsp, HDA Analog", "alsa:hw:CARD=0,DEV=0"), "sof-hda-dsp, HDA Analog");
    assert_eq!(tidy_name("Mikrofon (PRO X)", "wasapi:{0.0.1.0}"), "Mikrofon (PRO X)");
}

#[test]
fn a_name_that_trims_to_nothing_falls_back_to_the_id() {
    assert_eq!(tidy_name(", ", "alsa:plughw:CARD=0,DEV=7"), "plughw:CARD=0,DEV=7");
    assert_eq!(tidy_name("   ", "alsa:pipewire"), "pipewire");
}

#[test]
fn devices_that_share_a_name_are_told_apart_by_their_id() {
    let mut devices = vec![
        device("sof-hda-dsp", "alsa:hw:CARD=0,DEV=0"),
        device("sof-hda-dsp", "alsa:plughw:CARD=0,DEV=0"),
        device("PipeWire Sound Server", "alsa:pipewire"),
    ];
    disambiguate(&mut devices);
    assert_eq!(devices[0].name, "sof-hda-dsp (hw:CARD=0,DEV=0)");
    assert_eq!(devices[1].name, "sof-hda-dsp (plughw:CARD=0,DEV=0)");
    assert_eq!(devices[2].name, "PipeWire Sound Server");
}

#[test]
fn distinct_names_are_left_exactly_as_the_system_spells_them() {
    let mut devices = vec![
        device("Mikrofon (PRO X)", "wasapi:{0.0.1.0}"),
        device("Microphone Array", "wasapi:{0.0.1.1}"),
    ];
    let before = devices.clone();
    disambiguate(&mut devices);
    assert_eq!(devices, before);
}

#[test]
fn only_alsas_own_discard_device_is_left_out_of_the_list() {
    assert!(is_discard_device("alsa:null"));
    assert!(!is_discard_device("alsa:nullcard"));
    assert!(!is_discard_device("alsa:hw:CARD=null"));
    assert!(!is_discard_device("wasapi:null"));
}

#[test]
fn a_short_id_drops_the_host_every_row_shares() {
    assert_eq!(short_id("alsa:hw:CARD=0,DEV=6"), "hw:CARD=0,DEV=6");
    assert_eq!(short_id("nocolon"), "nocolon");
}

#[test]
fn the_listed_rows_skip_the_bin_tidy_the_names_mark_the_default_and_tell_twins_apart() {
    let found = vec![
        ("sof-hda-dsp, ".to_owned(), "alsa:hw:CARD=0,DEV=0".to_owned()),
        ("Discard all samples".to_owned(), "alsa:null".to_owned()),
        ("sof-hda-dsp".to_owned(), "alsa:plughw:CARD=0,DEV=0".to_owned()),
        ("PipeWire Sound Server".to_owned(), "alsa:pipewire".to_owned()),
    ];
    let rows = device_rows(&found, &Some("alsa:pipewire".to_owned()));
    assert_eq!(rows.len(), 3);
    assert_eq!(rows[0].name, "sof-hda-dsp (hw:CARD=0,DEV=0)");
    assert_eq!(rows[1].name, "sof-hda-dsp (plughw:CARD=0,DEV=0)");
    assert_eq!(rows[2].name, "PipeWire Sound Server");
    assert!(!rows[0].is_default && !rows[1].is_default && rows[2].is_default);
}

#[test]
fn the_ring_keeps_the_newest_audio_when_a_single_push_overflows_it() {
    let mut ring: PreRoll<f32> = PreRoll::new(4);
    ring.push(&[1.0, 2.0, 3.0, 4.0, 5.0, 6.0]);
    let mut out = Vec::new();
    ring.drain_into(&mut out);
    assert_eq!(out, vec![3.0, 4.0, 5.0, 6.0]);

    ring.push(&[7.0, 8.0]);
    let mut out = Vec::new();
    ring.drain_into(&mut out);
    assert_eq!(out, vec![5.0, 6.0, 7.0, 8.0]);
}

/// A detector with a fixed frame that calls a frame speech when any sample in it is loud.
struct Loud {
    frames: usize,
}

impl Vad<f32> for Loud {
    fn frame_len(&self) -> usize {
        320
    }

    fn process(&mut self, frame: &[f32]) -> Decision {
        self.frames += 1;
        if frame.iter().any(|sample| sample.abs() > 0.1) {
            Decision::Speech
        } else {
            Decision::Silence
        }
    }

    fn reset(&mut self) {
        self.frames = 0;
    }
}

/// `ms` of 16 kHz audio at one level, in 10 ms blocks the way a converter delivers them.
fn feed(pipeline: &mut Pipeline<f32, Loud>, ms: usize, level: f32) {
    for _ in 0..ms / 10 {
        pipeline.feed(&[level; 160]);
    }
}

#[test]
fn the_pre_roll_ring_is_prepended_to_the_recording() {
    let mut pipeline = Pipeline::new(500, 60, Loud { frames: 0 });
    feed(&mut pipeline, 1_500, 0.4);
    assert_eq!(pipeline.state(), State::Armed);

    pipeline.start();
    assert_eq!(pipeline.state(), State::Recording);
    feed(&mut pipeline, 500, 0.4);

    let recording = pipeline.stop();
    assert_eq!(pipeline.state(), State::Armed);
    assert_eq!(recording.samples.len(), 16_000, "500 ms of pre-roll plus 500 ms recorded");
    assert_eq!(recording.duration, Duration::from_secs(1));
    assert!(!recording.cap_hit);
    assert!(recording.speech.has_speech);
    assert_eq!(recording.speech.speech_ms, 1_000);
}

#[test]
fn without_a_pre_roll_only_what_was_recorded_survives() {
    let mut pipeline = Pipeline::new(0, 60, Loud { frames: 0 });
    feed(&mut pipeline, 1_000, 0.4);
    pipeline.start();
    feed(&mut pipeline, 500, 0.4);
    let recording = pipeline.stop();
    assert_eq!(recording.samples.len(), 8_000);
}

#[test]
fn the_cap_stops_recording_by_itself_and_leaves_the_stream_armed() {
    let mut pipeline = Pipeline::new(200, 1, Loud { frames: 0 });
    feed(&mut pipeline, 500, 0.4);
    pipeline.start();
    feed(&mut pipeline, 2_000, 0.4);
    assert_eq!(pipeline.state(), State::Capped);

    let recording = pipeline.stop();
    assert!(recording.cap_hit);
    assert_eq!(recording.samples.len(), 3_200 + 16_000, "200 ms of pre-roll plus the one second cap");

    assert_eq!(pipeline.state(), State::Armed);
    feed(&mut pipeline, 500, 0.4);
    pipeline.start();
    feed(&mut pipeline, 300, 0.4);
    let second = pipeline.stop();
    assert!(!second.cap_hit);
    assert_eq!(second.samples.len(), 3_200 + 4_800);
}

#[test]
fn discard_throws_the_buffer_away_and_keeps_the_stream_armed() {
    let mut pipeline = Pipeline::new(500, 60, Loud { frames: 0 });
    feed(&mut pipeline, 1_000, 0.4);
    pipeline.start();
    feed(&mut pipeline, 100, 0.4);
    pipeline.discard();
    assert_eq!(pipeline.state(), State::Armed);

    let nothing = pipeline.stop();
    assert!(nothing.is_empty());
    assert!(!nothing.speech.has_speech);

    feed(&mut pipeline, 600, 0.4);
    pipeline.start();
    feed(&mut pipeline, 200, 0.4);
    let recording = pipeline.stop();
    assert_eq!(recording.samples.len(), 11_200);
}

#[test]
fn silence_is_reported_as_silence_and_the_audio_is_still_whole() {
    let mut pipeline = Pipeline::new(300, 60, Loud { frames: 0 });
    feed(&mut pipeline, 500, 0.0);
    pipeline.start();
    feed(&mut pipeline, 1_000, 0.0);
    let recording = pipeline.stop();
    assert!(!recording.speech.has_speech);
    assert_eq!(recording.speech, SpeechSummary::default());
    assert_eq!(recording.samples.len(), 20_800);
}

#[test]
fn a_burst_is_timed_from_the_head_of_the_recording() {
    let mut vad = Loud { frames: 0 };
    let mut tracker: SpeechTracker<f32> = SpeechTracker::new(vad.frame_len());
    tracker.reset(&mut vad);
    let mut audio = vec![0.0f32; 8_000];
    audio.extend(vec![0.3f32; 16_000]);
    audio.extend(vec![0.0f32; 8_000]);
    tracker.push(&audio, &mut vad);
    let summary = tracker.summary();
    assert!(summary.has_speech);
    assert_eq!(summary.first_speech_at, Some(Duration::from_millis(500)));
    assert_eq!(summary.last_speech_at, Some(Duration::from_millis(1_500)));
    assert_eq!(summary.speech_ms, 1_000);
    assert_eq!(vad.frames, 100);
}

#[test]
fn a_sample_count_is_a_duration_at_sixteen_kilohertz() {
    assert_eq!(samples_to_duration(16_000), Duration::from_secs(1));
    assert_eq!(samples_to_duration(8), Duration::from_micros(500));
    assert_eq!(samples_to_duration(0), Duration::ZERO);
}

#[test]
fn the_meter_runs_at_the_rate_the_acceptance_criterion_asks_for() {
    let shipped = CaptureConfig::default().clamped();
    assert_eq!(shipped.level_interval_ms, 50);
    let hz = 1000 / shipped.level_interval_ms;
    assert!(hz >= 20, "{hz} Hz is under the acceptance criterion");
}

#[test]
fn a_press_right_after_a_release_opens_with_what_was_just_said() {
    let mut pipeline = Pipeline::new(100, 60, Loud { frames: 0 });
    // 1 600 samples of pre-roll. Quiet audio first, then a recording of loud audio.
    let quiet = vec![0.1_f32; 3_200];
    pipeline.feed(&quiet);
    pipeline.start();
    let loud: Vec<f32> = (0..4_000).map(|n| 0.5 + n as f32 / 100_000.0).collect();
    pipeline.feed(&loud);
    let first = pipeline.stop();
    assert_eq!(first.samples.len(), 1_600 + 4_000);

    // The ring kept running under the recording, so the next press opens with the newest
    // audio, which was recorded, and not with the quiet audio from before it.
    pipeline.start();
    let second = pipeline.stop();
    assert_eq!(second.samples.len(), 1_600);
    assert_eq!(second.samples, loud[4_000 - 1_600..].to_vec());
}

#[test]
fn a_block_that_does_not_fit_is_split_into_what_goes_in_and_what_is_counted() {
    assert_eq!(ring_split(6, 8), (6, 0));
    assert_eq!(ring_split(4, 2), (2, 2));
    assert_eq!(ring_split(4, 0), (0, 4));
    assert_eq!(ring_split(0, 0), (0, 0));
}

#[test]
fn the_cap_counts_every_sample_fed_since_the_press_whatever_the_pieces() {
    // One second of cap, 200 ms of pre-roll; the audio arrives in uneven pieces.
    let mut pipeline = Pipeline::new(200, 1, Loud { frames: 0 });
    pipeline.feed(&vec![0.1_f32; 5_000]);
    pipeline.start();
    let mut fed = 0usize;
    for piece in [700usize, 4_100, 9_000, 3_333, 1] {
        pipeline.feed(&vec![0.4_f32; piece]);
        fed += piece;
        let expected = if fed >= 16_000 { State::Capped } else { State::Recording };
        assert_eq!(pipeline.state(), expected, "after {fed} samples");
    }
    let recording = pipeline.stop();
    assert_eq!(recording.samples.len(), 3_200 + 16_000);
    assert!(recording.cap_hit);
}
