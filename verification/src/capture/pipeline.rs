//! Everything that happens to a 16 kHz sample between the converter and the engine: the
//! pre-roll ring, the recording, the cap and the speech tracker.

use std::time::Duration;
use vstd::prelude::*;

use super::config::{MAX_CAP_SECS, MAX_PRE_ROLL_MS, MIN_CAP_SECS, SAMPLE_RATE, State};
use super::preroll::{last_n, PreRoll};
use super::speech::{
    nanos_duration, samples_nanos, samples_to_duration, SpeechSummary, SpeechTracker, Vad,
    MAX_TRACKED_SAMPLES,
};

verus! {

/// One held-and-released dictation, as the engine will be given it.
pub struct Recording<T> {
    /// 16 kHz mono, pre-roll first, then everything up to the release. Nothing is trimmed.
    pub samples: Vec<T>,
    /// How long `samples` is, pre-roll included.
    pub duration: Duration,
    /// Whether recording stopped because it reached the cap rather than on release.
    pub cap_hit: bool,
    /// What the detector made of it.
    pub speech: SpeechSummary,
}

impl<T> Recording<T> {
    /// True when there is nothing to transcribe.
    pub fn is_empty(&self) -> (empty: bool)
        ensures
            empty == (self.samples@.len() == 0),
    {
        self.samples.len() == 0
    }
}

/// A recording under way, as the contracts see it.
pub struct Take<T> {
    /// Everything recorded so far, the pre-roll at its head.
    pub samples: Seq<T>,
    /// False once the cap has closed the recording.
    pub live: bool,
    /// Whether the cap closed it.
    pub cap_hit: bool,
    /// Samples recorded since the start, which is what the cap counts.
    pub live_samples: nat,
}

/// The pipeline as the contracts see it: the pre-roll ring, and the recording if there is one.
pub struct Stage<T> {
    /// What the pre-roll ring holds, oldest first.
    pub ring: Seq<T>,
    /// The recording in progress, or the one the cap closed and nobody collected yet.
    pub take: Option<Take<T>>,
}

/// The state a stage publishes.
pub open spec fn state_of<T>(stage: Stage<T>) -> State {
    match stage.take {
        None => State::Armed,
        Some(take) => if take.live {
            State::Recording
        } else {
            State::Capped
        },
    }
}

/// How many of `offered` samples a live recording with `live_samples` already in it takes
/// before the cap of `cap` samples is reached.
pub open spec fn taken(live_samples: nat, offered: nat, cap: nat) -> nat {
    let room = if live_samples >= cap { 0 } else { (cap - live_samples) as nat };
    if room < offered {
        room
    } else {
        offered
    }
}

/// The stage after `audio` arrived: every sample goes through the ring, which keeps the
/// newest `ring_len` samples, and a live recording also takes what the cap leaves room for.
pub open spec fn fed<T>(stage: Stage<T>, audio: Seq<T>, ring_len: nat, cap: nat) -> Stage<T> {
    if stage.take is Some && stage.take->0.live {
        let take = stage.take->0;
        let n = taken(take.live_samples, audio.len(), cap);
        let live_samples = take.live_samples + n;
        Stage {
            ring: last_n(stage.ring + audio, ring_len),
            take: Some(
                Take {
                    samples: take.samples + audio.take(n as int),
                    live: live_samples < cap,
                    cap_hit: live_samples >= cap,
                    live_samples: live_samples,
                },
            ),
        }
    } else {
        Stage { ring: last_n(stage.ring + audio, ring_len), take: stage.take }
    }
}

/// The stage after the key went down: a live recording that opens with the ring's contents.
pub open spec fn started<T>(stage: Stage<T>) -> Stage<T> {
    Stage {
        ring: stage.ring,
        take: Some(Take { samples: stage.ring, live: true, cap_hit: false, live_samples: 0 }),
    }
}

/// What a stage holds for the engine when the key comes up.
pub open spec fn collected<T>(stage: Stage<T>) -> Seq<T> {
    match stage.take {
        Some(take) => take.samples,
        None => Seq::empty(),
    }
}

/// Whether the cap closed what a stage holds.
pub open spec fn collected_cap_hit<T>(stage: Stage<T>) -> bool {
    match stage.take {
        Some(take) => take.cap_hit,
        None => false,
    }
}

/// The stage's own books agree: the ring never overfills and a live recording has room left.
pub open spec fn stage_ok<T>(stage: Stage<T>, ring_len: nat, cap: nat) -> bool {
    &&& stage.ring.len() <= ring_len
    &&& match stage.take {
        Some(take) => {
            &&& take.live_samples <= cap
            &&& take.live ==> take.live_samples < cap
            &&& take.cap_hit == !take.live
        },
        None => true,
    }
}

/// Samples in the ring for `pre_roll_ms` of pre-roll.
pub open spec fn ring_len_for(pre_roll_ms: u32) -> nat {
    (SAMPLE_RATE as nat * pre_roll_ms as nat / 1000) as nat
}

/// Samples in a recording capped at `cap_secs`.
pub open spec fn cap_for(cap_secs: u32) -> nat {
    (SAMPLE_RATE as nat * cap_secs as nat) as nat
}

/// Append `items` to `out`, in order.
fn append<T: Copy>(out: &mut Vec<T>, items: &[T])
    ensures
        final(out)@ == old(out)@ + items@,
{
    let ghost before = out@;
    let mut i: usize = 0;
    while i < items.len()
        invariant
            i <= items.len(),
            out@ == before + items@.subrange(0, i as int),
        decreases items.len() - i,
    {
        out.push(items[i]);
        proof {
            assert(items@.subrange(0, i + 1) =~= items@.subrange(0, i as int).push(items@[i as int]));
        }
        i += 1;
    }
    proof {
        assert(items@.subrange(0, items@.len() as int) =~= items@);
    }
}

/// A recording in progress, or one waiting to be collected after the cap stopped it.
struct InFlight<T> {
    samples: Vec<T>,
    live: bool,
    cap_hit: bool,
    live_samples: usize,
}

/// The synchronous core of the capture stage, from converted audio to a [`Recording`].
pub struct Pipeline<T, V> {
    pre_roll: PreRoll<T>,
    vad: V,
    tracker: SpeechTracker<T>,
    in_flight: Option<InFlight<T>>,
    cap_samples: usize,
    pre_roll_samples: usize,
}

impl<T: Copy, V: Vad<T>> View for Pipeline<T, V> {
    type V = Stage<T>;

    closed spec fn view(&self) -> Stage<T> {
        Stage {
            ring: self.pre_roll.contents(),
            take: match self.in_flight {
                None => None,
                Some(f) => Some(
                    Take {
                        samples: f.samples@,
                        live: f.live,
                        cap_hit: f.cap_hit,
                        live_samples: f.live_samples as nat,
                    },
                ),
            },
        }
    }
}

impl<T: Copy, V: Vad<T>> Pipeline<T, V> {
    /// How many samples the pre-roll ring keeps.
    pub closed spec fn ring_len(&self) -> nat {
        self.pre_roll_samples as nat
    }

    /// How many samples a recording may take after its pre-roll.
    pub closed spec fn cap(&self) -> nat {
        self.cap_samples as nat
    }

    /// The speech tracker, which has seen exactly what is being recorded.
    pub closed spec fn tracker_spec(&self) -> SpeechTracker<T> {
        self.tracker
    }

    /// The pipeline's parts agree with each other.
    pub closed spec fn wf(&self) -> bool {
        &&& self.pre_roll.wf()
        &&& self.pre_roll.capacity_spec() == self.pre_roll_samples
        &&& self.tracker.wf()
        &&& self.cap_samples >= 1
        &&& self.pre_roll_samples + self.cap_samples <= MAX_TRACKED_SAMPLES
        &&& stage_ok(self@, self.pre_roll_samples as nat, self.cap_samples as nat)
        &&& match self.in_flight {
            Some(f) => {
                &&& self.tracker.fed() == f.samples@
                &&& f.samples@.len() <= self.pre_roll_samples + f.live_samples
            },
            None => true,
        }
    }

    /// A pipeline for a clamped config: `pre_roll_ms` of ring, `cap_secs` of cap, and the
    /// detector that classifies what is recorded.
    pub fn new(pre_roll_ms: u32, cap_secs: u32, vad: V) -> (pipeline: Pipeline<T, V>)
        requires
            pre_roll_ms <= MAX_PRE_ROLL_MS,
            MIN_CAP_SECS <= cap_secs <= MAX_CAP_SECS,
        ensures
            pipeline.wf(),
            pipeline.ring_len() == ring_len_for(pre_roll_ms),
            pipeline.cap() == cap_for(cap_secs),
            pipeline@.ring == Seq::<T>::empty(),
            pipeline@.take is None,
    {
        proof {
            assert(16000 * (pre_roll_ms as u64) <= 16000 * 5000) by (nonlinear_arith)
                requires
                    pre_roll_ms <= 5000,
            ;
            assert(16000 * (cap_secs as u64) <= 16000 * 300) by (nonlinear_arith)
                requires
                    cap_secs <= 300,
            ;
            assert(16000 * (cap_secs as u64) >= 16000) by (nonlinear_arith)
                requires
                    cap_secs >= 1,
            ;
        }
        let pre_roll_samples = (SAMPLE_RATE as u64 * pre_roll_ms as u64 / 1000) as usize;
        let cap_samples = (SAMPLE_RATE as u64 * cap_secs as u64) as usize;
        let frame_len = vad.frame_len();
        Pipeline {
            pre_roll: PreRoll::new(pre_roll_samples),
            vad,
            tracker: SpeechTracker::new(frame_len),
            in_flight: None,
            cap_samples,
            pre_roll_samples,
        }
    }

    /// Where the pipeline is right now.
    pub fn state(&self) -> (state: State)
        requires
            self.wf(),
        ensures
            state == state_of(self@),
    {
        match &self.in_flight {
            None => State::Armed,
            Some(in_flight) => if in_flight.live {
                State::Recording
            } else {
                State::Capped
            },
        }
    }

    /// Feed converted samples: into the pre-roll ring always, and into the recording too while
    /// it is live and under the cap.
    pub fn feed(&mut self, converted: &[T])
        requires
            old(self).wf(),
        ensures
            final(self).wf(),
            final(self).ring_len() == old(self).ring_len(),
            final(self).cap() == old(self).cap(),
            final(self)@ == fed(old(self)@, converted@, old(self).ring_len(), old(self).cap()),
    {
        if converted.len() == 0 {
            proof {
                assert(self.pre_roll.contents() + converted@ =~= self.pre_roll.contents());
            }
            return;
        }
        let ghost audio = converted@;
        let ghost stage = self@;
        self.pre_roll.push(converted);
        let in_flight = self.in_flight.take();
        match in_flight {
            None => {},
            Some(mut f) => {
                proof {
                    assert(stage.take == Some(Take {
                        samples: f.samples@,
                        live: f.live,
                        cap_hit: f.cap_hit,
                        live_samples: f.live_samples as nat,
                    }));
                    assert(f.live_samples <= self.cap_samples);
                }
                if f.live {
                    let room = self.cap_samples - f.live_samples;
                    let take = if room < converted.len() {
                        room
                    } else {
                        converted.len()
                    };
                    let (head, _rest) = converted.split_at(take);
                    append(&mut f.samples, head);
                    proof {
                        assert(head@ =~= audio.take(take as int));
                    }
                    self.tracker.push(head, &mut self.vad);
                    f.live_samples = f.live_samples + take;
                    if f.live_samples >= self.cap_samples {
                        f.live = false;
                        f.cap_hit = true;
                    }
                }
                self.in_flight = Some(f);
            },
        }
    }

    /// Recording begins now, with the pre-roll ring's contents in front of it.
    pub fn start(&mut self)
        requires
            old(self).wf(),
        ensures
            final(self).wf(),
            final(self).ring_len() == old(self).ring_len(),
            final(self).cap() == old(self).cap(),
            final(self)@ == started(old(self)@),
            final(self).tracker_spec().fed() == old(self)@.ring,
    {
        let mut samples: Vec<T> = Vec::new();
        self.pre_roll.drain_into(&mut samples);
        self.tracker.reset(&mut self.vad);
        self.tracker.push(samples.as_slice(), &mut self.vad);
        self.in_flight = Some(InFlight { samples, live: true, cap_hit: false, live_samples: 0 });
    }

    /// Hand over what was recorded, and go back to filling the pre-roll ring.
    pub fn stop(&mut self) -> (recording: Recording<T>)
        requires
            old(self).wf(),
        ensures
            final(self).wf(),
            final(self).ring_len() == old(self).ring_len(),
            final(self).cap() == old(self).cap(),
            final(self)@ == (Stage { ring: old(self)@.ring, take: None }),
            recording.samples@ == collected(old(self)@),
            recording.cap_hit == collected_cap_hit(old(self)@),
            recording.duration == nanos_duration(samples_nanos(recording.samples@.len() as u64)),
            recording.speech == if recording.samples@.len() == 0 {
                SpeechSummary::silent()
            } else {
                old(self).tracker_spec().summary_spec()
            },
            recording.samples@.len() > 0 ==> old(self).tracker_spec().fed() == recording.samples@,
    {
        let in_flight = self.in_flight.take();
        let speech = self.tracker.summary();
        let (samples, cap_hit) = match in_flight {
            Some(f) => (f.samples, f.cap_hit),
            None => (Vec::new(), false),
        };
        let duration = samples_to_duration(samples.len() as u64);
        let speech = if samples.len() == 0 {
            SpeechSummary::nothing()
        } else {
            speech
        };
        Recording { samples, duration, cap_hit, speech }
    }

    /// Throw the recording away and stay armed.
    pub fn discard(&mut self)
        requires
            old(self).wf(),
        ensures
            final(self).wf(),
            final(self).ring_len() == old(self).ring_len(),
            final(self).cap() == old(self).cap(),
            final(self)@ == (Stage { ring: old(self)@.ring, take: None }),
    {
        self.in_flight = None;
    }
}

} // verus!

verus! {

/// Audio offered in two pieces ends where the same audio offered in one piece ends: how the
/// callback happens to cut the stream into blocks changes nothing that is recorded or kept.
pub proof fn lemma_feed_in_pieces<T>(
    stage: Stage<T>,
    first: Seq<T>,
    second: Seq<T>,
    ring_len: nat,
    cap: nat,
)
    requires
        stage_ok(stage, ring_len, cap),
    ensures
        fed(fed(stage, first, ring_len, cap), second, ring_len, cap) == fed(
            stage,
            first + second,
            ring_len,
            cap,
        ),
{
    let both = first + second;
    super::preroll::lemma_last_n_twice(stage.ring, first, second, ring_len);
    assert(stage.ring + first + second =~= stage.ring + both);
    if stage.take is Some && stage.take->0.live {
        let take = stage.take->0;
        let n1 = taken(take.live_samples, first.len(), cap);
        let mid = fed(stage, first, ring_len, cap);
        let n = taken(take.live_samples, both.len(), cap);
        if n1 < first.len() {
            assert(n == n1);
            assert(both.take(n as int) =~= first.take(n1 as int));
            assert(mid.take->0.samples == take.samples + both.take(n as int));
        } else {
            assert(first.take(n1 as int) =~= first);
            let live = take.live_samples + n1;
            if live >= cap {
                assert(n == n1);
                assert(both.take(n as int) =~= first);
            } else {
                let n2 = taken(live, second.len(), cap);
                assert(n == n1 + n2);
                assert(both.take(n as int) =~= first.take(n1 as int) + second.take(n2 as int));
                assert(take.samples + first.take(n1 as int) + second.take(n2 as int)
                    =~= take.samples + both.take(n as int));
            }
        }
    }
}

/// The ring always holds the newest `ring_len` samples of everything that was ever fed,
/// recorded or not: a feed keeps that true, and so do a press, a release and a discard, which
/// leave the ring as it was.
pub proof fn lemma_ring_holds_the_newest_audio<T>(
    stage: Stage<T>,
    history: Seq<T>,
    audio: Seq<T>,
    ring_len: nat,
    cap: nat,
)
    requires
        stage.ring == last_n(history, ring_len),
    ensures
        fed(stage, audio, ring_len, cap).ring == last_n(history + audio, ring_len),
        started(stage).ring == last_n(history, ring_len),
        collected(started(stage)) == last_n(history, ring_len),
{
    super::preroll::lemma_last_n_twice(Seq::<T>::empty(), history, audio, ring_len);
    assert(Seq::<T>::empty() + history =~= history);
    assert(Seq::<T>::empty() + history + audio =~= history + audio);
}

/// What a press collects is the ring as it stood when the key went down, followed by the
/// audio that arrived while it was held, cut only by the cap: nothing in front is lost and
/// nothing is trimmed.
pub proof fn lemma_press_collects_ring_then_audio<T>(
    stage: Stage<T>,
    audio: Seq<T>,
    ring_len: nat,
    cap: nat,
)
    requires
        stage_ok(stage, ring_len, cap),
        cap >= 1,
    ensures
        collected(fed(started(stage), audio, ring_len, cap)) == stage.ring + audio.take(
            if audio.len() < cap { audio.len() as int } else { cap as int },
        ),
        collected_cap_hit(fed(started(stage), audio, ring_len, cap)) == (audio.len() >= cap),
        state_of(fed(started(stage), audio, ring_len, cap)) == if audio.len() >= cap {
            State::Capped
        } else {
            State::Recording
        },
{
}

/// Every feed keeps the stage's books: the ring never overfills and a live recording never
/// passes the cap.
pub proof fn lemma_feed_keeps_books<T>(stage: Stage<T>, audio: Seq<T>, ring_len: nat, cap: nat)
    requires
        stage_ok(stage, ring_len, cap),
    ensures
        stage_ok(fed(stage, audio, ring_len, cap), ring_len, cap),
{
}


/// Pieces of audio, one after another.
pub open spec fn joined<T>(pieces: Seq<Seq<T>>) -> Seq<T>
    decreases pieces.len(),
{
    if pieces.len() == 0 {
        Seq::empty()
    } else {
        joined(pieces.drop_last()) + pieces.last()
    }
}

/// The stage after each piece was fed in turn.
pub open spec fn fed_all<T>(stage: Stage<T>, pieces: Seq<Seq<T>>, ring_len: nat, cap: nat) -> Stage<T>
    decreases pieces.len(),
{
    if pieces.len() == 0 {
        stage
    } else {
        fed(fed_all(stage, pieces.drop_last(), ring_len, cap), pieces.last(), ring_len, cap)
    }
}

/// A run of feeds ends where one feed of all their audio ends, and keeps the books.
pub proof fn lemma_fed_all_is_one_feed<T>(stage: Stage<T>, pieces: Seq<Seq<T>>, ring_len: nat, cap: nat)
    requires
        stage_ok(stage, ring_len, cap),
    ensures
        fed_all(stage, pieces, ring_len, cap) == fed(stage, joined(pieces), ring_len, cap),
        stage_ok(fed_all(stage, pieces, ring_len, cap), ring_len, cap),
    decreases pieces.len(),
{
    if pieces.len() == 0 {
        let none = Seq::<T>::empty();
        let after = fed(stage, none, ring_len, cap);
        assert(stage.ring + none =~= stage.ring);
        assert(after.ring =~= stage.ring);
        if stage.take is Some && stage.take->0.live {
            assert(none.take(0) =~= none);
            assert(stage.take->0.samples + none.take(0) =~= stage.take->0.samples);
        }
        assert(after == stage);
    } else {
        let rest = pieces.drop_last();
        lemma_fed_all_is_one_feed(stage, rest, ring_len, cap);
        lemma_feed_in_pieces(stage, joined(rest), pieces.last(), ring_len, cap);
        lemma_feed_keeps_books(stage, joined(pieces), ring_len, cap);
    }
}

/// Pre-roll over a whole run: whatever was fed, in whatever pieces, recorded or not, the
/// ring holds the newest `ring_len` samples of it, and a press opens the recording with
/// exactly those.
pub proof fn lemma_press_opens_with_the_newest_audio<T>(
    stage: Stage<T>,
    history: Seq<T>,
    pieces: Seq<Seq<T>>,
    ring_len: nat,
    cap: nat,
)
    requires
        stage_ok(stage, ring_len, cap),
        stage.ring == last_n(history, ring_len),
    ensures
        fed_all(stage, pieces, ring_len, cap).ring == last_n(history + joined(pieces), ring_len),
        collected(started(fed_all(stage, pieces, ring_len, cap))) == last_n(
            history + joined(pieces),
            ring_len,
        ),
{
    lemma_fed_all_is_one_feed(stage, pieces, ring_len, cap);
    lemma_ring_holds_the_newest_audio(stage, history, joined(pieces), ring_len, cap);
}

/// The cap over a whole run of feeds after a press: the recording is the ring it opened with
/// and then the first `min(n, cap)` of the `n` samples fed, it counts `min(n, cap)` samples,
/// and the cap has closed it exactly when `n` reached the cap.
pub proof fn lemma_cap_over_a_run<T>(stage: Stage<T>, pieces: Seq<Seq<T>>, ring_len: nat, cap: nat)
    requires
        stage_ok(stage, ring_len, cap),
        cap >= 1,
    ensures
        ({
            let after = fed_all(started(stage), pieces, ring_len, cap);
            let n = joined(pieces).len();
            let recorded = if n < cap { n } else { cap };
            &&& after.take is Some
            &&& after.take->0.live_samples == recorded
            &&& collected(after) == stage.ring + joined(pieces).take(recorded as int)
            &&& collected_cap_hit(after) == (n >= cap)
            &&& state_of(after) == if n >= cap { State::Capped } else { State::Recording }
        }),
{
    lemma_fed_all_is_one_feed(started(stage), pieces, ring_len, cap);
    lemma_press_collects_ring_then_audio(stage, joined(pieces), ring_len, cap);
}

} // verus!
