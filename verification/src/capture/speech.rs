//! What a voice-activity detector made of a recording.

use std::time::Duration;
use vstd::prelude::*;

use super::config::SAMPLE_RATE;

verus! {

/// The most samples one tracker accounts for between two resets: well over a day of audio,
/// and far more than a capped recording with its pre-roll can hold.
pub const MAX_TRACKED_SAMPLES: u64 = 0x8000_0000;

/// What `Duration::from_nanos` builds for a count of nanoseconds.
pub uninterp spec fn nanos_duration(nanos: u64) -> Duration;

/// `Duration::from_nanos`, whose result is the span of exactly that many nanoseconds.
#[verifier::external_body]
fn duration_from_nanos(nanos: u64) -> (duration: Duration)
    ensures
        duration == nanos_duration(nanos),
{
    Duration::from_nanos(nanos)
}

/// Nanoseconds covered by `samples` samples of the 16 kHz stream, rounded down.
pub open spec fn samples_nanos(samples: u64) -> u64 {
    (samples as int * 1_000_000_000 / (SAMPLE_RATE as int)) as u64
}

/// How long `samples` samples of the 16 kHz stream last.
pub fn samples_to_duration(samples: u64) -> (duration: Duration)
    requires
        samples <= MAX_TRACKED_SAMPLES,
    ensures
        duration == nanos_duration(samples_nanos(samples)),
{
    let nanos = samples * 1_000_000_000 / (SAMPLE_RATE as u64);
    duration_from_nanos(nanos)
}

/// One frame's verdict.
#[derive(Clone, Copy, Debug, PartialEq, Eq, Structural)]
pub enum Decision {
    /// Somebody is talking, or was a moment ago.
    Speech,
    /// Nothing worth sending to a decoder.
    Silence,
}

/// A voice-activity detector: fixed-size frames of the 16 kHz stream in, one verdict each.
///
/// The seam a detector of the caller's own drops into; the relative-RMS baseline is one.
pub trait Vad<S> {
    /// How many samples one frame holds.
    fn frame_len(&self) -> usize;

    /// Whether this detector's verdicts are described by `verdict`; a detector that says
    /// nothing of itself promises nothing.
    open spec fn obeys_verdict() -> bool {
        false
    }

    /// What this detector, as it stands, makes of `frame`.
    open spec fn verdict(&self, frame: Seq<S>) -> Decision {
        Decision::Silence
    }

    /// Classify one frame: for a detector that describes itself, its verdict as it stood on
    /// exactly that frame.
    fn process(&mut self, frame: &[S]) -> (decision: Decision)
        ensures
            Self::obeys_verdict() ==> decision == old(self).verdict(frame@);

    /// Forget everything learned, for the head of a new recording.
    fn reset(&mut self);
}

/// What the detector made of one recording, measured from its first sample.
#[derive(Clone, Copy, Debug, PartialEq, Eq)]
pub struct SpeechSummary {
    /// Whether any speech was found at all.
    pub has_speech: bool,
    /// Total milliseconds classified as speech, hangover included.
    pub speech_ms: u32,
    /// Start of the first frame classified as speech.
    pub first_speech_at: Option<Duration>,
    /// End of the last frame classified as speech.
    pub last_speech_at: Option<Duration>,
}

impl SpeechSummary {
    /// Nothing heard.
    pub open spec fn silent() -> SpeechSummary {
        SpeechSummary {
            has_speech: false,
            speech_ms: 0,
            first_speech_at: None,
            last_speech_at: None,
        }
    }

    /// The summary of a recording in which nothing was heard.
    pub fn nothing() -> (summary: SpeechSummary)
        ensures
            summary == SpeechSummary::silent(),
    {
        SpeechSummary { has_speech: false, speech_ms: 0, first_speech_at: None, last_speech_at: None }
    }

    /// The summary after frame number `index` (counted from zero) was classified `decision`.
    pub open spec fn after(
        self,
        decision: Decision,
        index: nat,
        frame_len: nat,
        frame_ms: nat,
    ) -> SpeechSummary {
        if decision == Decision::Speech {
            SpeechSummary {
                has_speech: true,
                speech_ms: (self.speech_ms + frame_ms) as u32,
                first_speech_at: if self.first_speech_at is None {
                    Some(nanos_duration(samples_nanos((index * frame_len) as u64)))
                } else {
                    self.first_speech_at
                },
                last_speech_at: Some(
                    nanos_duration(samples_nanos(((index + 1) * frame_len) as u64)),
                ),
            }
        } else {
            self
        }
    }
}

impl Default for SpeechSummary {
    fn default() -> (summary: SpeechSummary)
        ensures
            summary == SpeechSummary::silent(),
    {
        SpeechSummary::nothing()
    }
}

/// The summary of a whole sequence of verdicts, frame by frame.
pub open spec fn summary_of(decisions: Seq<Decision>, frame_len: nat, frame_ms: nat) -> SpeechSummary
    decreases decisions.len(),
{
    if decisions.len() == 0 {
        SpeechSummary::silent()
    } else {
        summary_of(decisions.drop_last(), frame_len, frame_ms).after(
            decisions.last(),
            (decisions.len() - 1) as nat,
            frame_len,
            frame_ms,
        )
    }
}

/// How many of `decisions` are speech.
pub open spec fn speech_frames(decisions: Seq<Decision>) -> nat
    decreases decisions.len(),
{
    if decisions.len() == 0 {
        0
    } else {
        speech_frames(decisions.drop_last()) + if decisions.last() == Decision::Speech {
            1nat
        } else {
            0nat
        }
    }
}

/// The milliseconds one frame of `frame_len` samples is credited with.
pub open spec fn frame_ms_of(frame_len: nat) -> nat {
    let ms = frame_len * 1000 / (SAMPLE_RATE as nat);
    if ms == 0 {
        1
    } else {
        ms
    }
}

/// The speech total is the number of speech frames times one frame's length, and speech was
/// heard exactly when one of the frames said so.
pub proof fn lemma_summary_counts(decisions: Seq<Decision>, frame_len: nat, frame_ms: nat)
    requires
        speech_frames(decisions) * frame_ms <= u32::MAX,
    ensures
        summary_of(decisions, frame_len, frame_ms).speech_ms == speech_frames(decisions) * frame_ms,
        summary_of(decisions, frame_len, frame_ms).has_speech <==> decisions.contains(
            Decision::Speech,
        ),
        summary_of(decisions, frame_len, frame_ms).has_speech <==> speech_frames(decisions) > 0,
        summary_of(decisions, frame_len, frame_ms).first_speech_at is Some <==> decisions.contains(
            Decision::Speech,
        ),
        summary_of(decisions, frame_len, frame_ms).last_speech_at is Some <==> decisions.contains(
            Decision::Speech,
        ),
        decisions.len() > 0 && decisions.last() == Decision::Speech ==> summary_of(
            decisions,
            frame_len,
            frame_ms,
        ).last_speech_at == Some(nanos_duration(samples_nanos((decisions.len() * frame_len) as u64))),
        decisions.len() > 0 && decisions[0] == Decision::Speech ==> summary_of(
            decisions,
            frame_len,
            frame_ms,
        ).first_speech_at == Some(nanos_duration(samples_nanos(0))),
    decreases decisions.len(),
{
    if decisions.len() > 0 {
        let rest = decisions.drop_last();
        assert(0 * frame_len == 0);
        if decisions.len() > 1 {
            assert(rest[0] == decisions[0]);
        }
        assert(speech_frames(rest) * frame_ms <= speech_frames(decisions) * frame_ms) by (nonlinear_arith)
            requires
                speech_frames(rest) <= speech_frames(decisions),
        ;
        lemma_summary_counts(rest, frame_len, frame_ms);
        if decisions.last() == Decision::Speech {
            assert(decisions.contains(Decision::Speech)) by {
                assert(decisions[decisions.len() - 1] == Decision::Speech);
            }
            assert((speech_frames(rest) + 1) * frame_ms == speech_frames(rest) * frame_ms + frame_ms) by (nonlinear_arith);
        } else {
            assert(decisions.contains(Decision::Speech) <==> rest.contains(Decision::Speech)) by {
                if decisions.contains(Decision::Speech) {
                    let k = choose|k: int| 0 <= k < decisions.len() && decisions[k] == Decision::Speech;
                    assert(rest[k] == Decision::Speech);
                }
                if rest.contains(Decision::Speech) {
                    let k = choose|k: int| 0 <= k < rest.len() && rest[k] == Decision::Speech;
                    assert(decisions[k] == Decision::Speech);
                }
            }
        }
    } else {
        assert(!decisions.contains(Decision::Speech));
        assert(0 * frame_ms == 0);
    }
}

/// Verdict `k` is, for some state of the detector, what it made of exactly the `k`-th whole
/// frame of `fed`: samples `k * frame_len` to `(k + 1) * frame_len`.
pub open spec fn judged_at<T, V: Vad<T>>(
    fed: Seq<T>,
    decisions: Seq<Decision>,
    k: int,
    frame_len: int,
) -> bool {
    exists|v: V| #[trigger] v.verdict(fed.subrange(k * frame_len, (k + 1) * frame_len)) == decisions[k]
}

/// Every verdict from index `from` on is, for a detector that describes itself, its verdict
/// on the matching whole frame of `fed`.
pub open spec fn judged_whole<T, V: Vad<T>>(
    fed: Seq<T>,
    decisions: Seq<Decision>,
    from: int,
    frame_len: int,
) -> bool {
    V::obeys_verdict() ==> forall|k: int|
        from <= k < decisions.len() ==> #[trigger] judged_at::<T, V>(fed, decisions, k, frame_len)
}

/// Verdicts about whole frames stay about the same frames when more samples arrive behind
/// them.
proof fn lemma_judged_after_growth<T, V: Vad<T>>(
    before: Seq<T>,
    after: Seq<T>,
    decisions: Seq<Decision>,
    from: int,
    frame_len: int,
)
    requires
        judged_whole::<T, V>(before, decisions, from, frame_len),
        from >= 0,
        frame_len >= 1,
        decisions.len() * frame_len <= before.len(),
        before.len() <= after.len(),
        before == after.subrange(0, before.len() as int),
    ensures
        judged_whole::<T, V>(after, decisions, from, frame_len),
{
    if V::obeys_verdict() {
        assert forall|k: int|
            from <= k < decisions.len() implies #[trigger] judged_at::<T, V>(after, decisions, k, frame_len) by {
            assert(decisions[k] == decisions[k]);
            assert(judged_at::<T, V>(before, decisions, k, frame_len));
            let v = choose|v: V|
                #[trigger] v.verdict(before.subrange(k * frame_len, (k + 1) * frame_len))
                    == decisions[k];
            lemma_frame_span(k, decisions.len() as int, frame_len);
            assert(after.subrange(k * frame_len, (k + 1) * frame_len) =~= before.subrange(
                k * frame_len,
                (k + 1) * frame_len,
            ));
            assert(v.verdict(after.subrange(k * frame_len, (k + 1) * frame_len)) == decisions[k]);
        }
    }
}

/// A new verdict that is the detector's verdict on the next whole frame keeps every verdict
/// about its own frame.
proof fn lemma_judged_push<T, V: Vad<T>>(
    fed: Seq<T>,
    decisions: Seq<Decision>,
    decision: Decision,
    judge: V,
    from: int,
    frame_len: int,
)
    requires
        judged_whole::<T, V>(fed, decisions, from, frame_len),
        from >= 0,
        V::obeys_verdict() ==> judge.verdict(
            fed.subrange(decisions.len() * frame_len, (decisions.len() + 1) * frame_len),
        ) == decision,
    ensures
        judged_whole::<T, V>(fed, decisions.push(decision), from, frame_len),
{
    let grown = decisions.push(decision);
    if V::obeys_verdict() {
        assert forall|k: int|
            from <= k < grown.len() implies #[trigger] judged_at::<T, V>(fed, grown, k, frame_len) by {
            if k < decisions.len() {
                assert(decisions[k] == decisions[k]);
                assert(judged_at::<T, V>(fed, decisions, k, frame_len));
                let v = choose|v: V|
                    #[trigger] v.verdict(fed.subrange(k * frame_len, (k + 1) * frame_len))
                        == decisions[k];
                assert(grown[k] == decisions[k]);
                assert(v.verdict(fed.subrange(k * frame_len, (k + 1) * frame_len)) == grown[k]);
            } else {
                assert(judge.verdict(fed.subrange(k * frame_len, (k + 1) * frame_len)) == grown[k]);
            }
        }
    }
}

/// Frame `k` of `n` whole frames of `fl` samples lies inside the first `n * fl` samples.
proof fn lemma_frame_span(k: int, n: int, fl: int)
    requires
        0 <= k < n,
        fl >= 1,
    ensures
        0 <= k * fl,
        k * fl + fl == (k + 1) * fl,
        (k + 1) * fl <= n * fl,
{
    assert(0 <= k * fl) by (nonlinear_arith)
        requires
            k >= 0,
            fl >= 1,
    ;
    assert(k * fl + fl == (k + 1) * fl) by (nonlinear_arith);
    assert((k + 1) * fl <= n * fl) by (nonlinear_arith)
        requires
            k + 1 <= n,
            fl >= 1,
    ;
}

/// Chops a recording into frames, runs a detector over them and keeps the summary.
pub struct SpeechTracker<T> {
    frame: Vec<T>,
    frame_len: usize,
    frame_ms: u64,
    offset_samples: u64,
    summary: SpeechSummary,
    fed: Ghost<Seq<T>>,
    decisions: Ghost<Seq<Decision>>,
}

impl<T: Copy> SpeechTracker<T> {
    /// Every sample fed since the last reset, in order.
    pub closed spec fn fed(&self) -> Seq<T> {
        self.fed@
    }

    /// The detector's verdict on every whole frame fed since the last reset, in order.
    pub closed spec fn decisions(&self) -> Seq<Decision> {
        self.decisions@
    }

    /// How many samples one frame holds.
    pub closed spec fn frame_len_spec(&self) -> nat {
        self.frame_len as nat
    }

    /// The milliseconds one frame is credited with.
    pub closed spec fn frame_ms_spec(&self) -> nat {
        self.frame_ms as nat
    }

    /// The summary as it stands.
    pub closed spec fn summary_spec(&self) -> SpeechSummary {
        self.summary
    }

    /// The tracker's books agree with each other.
    pub closed spec fn wf(&self) -> bool {
        &&& self.frame_len >= 1
        &&& self.frame_ms as nat == frame_ms_of(self.frame_len as nat)
        &&& self.frame_ms <= self.frame_len
        &&& self.fed@.len() <= MAX_TRACKED_SAMPLES
        &&& self.offset_samples as nat == self.decisions@.len() * self.frame_len
        &&& self.fed@.len() == self.offset_samples + self.frame@.len()
        &&& self.frame@.len() < self.frame_len
        &&& self.frame@ == self.fed@.subrange(self.offset_samples as int, self.fed@.len() as int)
        &&& self.summary == summary_of(self.decisions@, self.frame_len as nat, self.frame_ms as nat)
        &&& self.summary.speech_ms as nat == speech_frames(self.decisions@) * self.frame_ms
        &&& speech_frames(self.decisions@) <= self.decisions@.len()
    }

    /// A tracker for frames of `frame_len` samples; a length of zero is taken as one.
    pub fn new(frame_len: usize) -> (tracker: SpeechTracker<T>)
        ensures
            tracker.wf(),
            tracker.fed() == Seq::<T>::empty(),
            tracker.decisions() == Seq::<Decision>::empty(),
            tracker.frame_len_spec() == if frame_len == 0 { 1 } else { frame_len as nat },
            tracker.summary_spec() == SpeechSummary::silent(),
    {
        let frame_len = if frame_len == 0 { 1 } else { frame_len };
        let ms = (frame_len as u64) / 16;
        let frame_ms: u64 = if ms == 0 { 1 } else { ms };
        proof {
            let n = frame_len as nat;
            assert(n * 1000 / 16000 == n / 16) by (nonlinear_arith);
            assert(n / 16 <= n) by (nonlinear_arith);
            assert(0 * frame_ms == 0);
            assert(Seq::<T>::empty() =~= Seq::<T>::empty().subrange(0, 0));
        }
        SpeechTracker {
            frame: Vec::new(),
            frame_len,
            frame_ms,
            offset_samples: 0,
            summary: SpeechSummary::nothing(),
            fed: Ghost(Seq::empty()),
            decisions: Ghost(Seq::empty()),
        }
    }

    /// How many samples one frame holds.
    pub fn frame_len(&self) -> (len: usize)
        ensures
            len as nat == self.frame_len_spec(),
    {
        self.frame_len
    }

    /// Start over for a new recording, and reset the detector with it.
    pub fn reset<V: Vad<T>>(&mut self, vad: &mut V)
        requires
            old(self).wf(),
        ensures
            final(self).wf(),
            final(self).fed() == Seq::<T>::empty(),
            final(self).decisions() == Seq::<Decision>::empty(),
            final(self).frame_len_spec() == old(self).frame_len_spec(),
            final(self).frame_ms_spec() == old(self).frame_ms_spec(),
            final(self).summary_spec() == SpeechSummary::silent(),
    {
        self.frame.clear();
        self.offset_samples = 0;
        self.summary = SpeechSummary::nothing();
        self.fed = Ghost(Seq::empty());
        self.decisions = Ghost(Seq::empty());
        vad.reset();
        proof {
            assert(self.frame@ =~= self.fed@.subrange(0, 0));
            assert(0 * self.frame_ms == 0);
        }
    }

    /// Feed the next samples of the recording, in order; every frame that fills is classified.
    pub fn push<V: Vad<T>>(&mut self, samples: &[T], vad: &mut V)
        requires
            old(self).wf(),
            old(self).fed().len() + samples@.len() <= MAX_TRACKED_SAMPLES,
        ensures
            final(self).wf(),
            final(self).fed() == old(self).fed() + samples@,
            final(self).frame_len_spec() == old(self).frame_len_spec(),
            final(self).frame_ms_spec() == old(self).frame_ms_spec(),
            final(self).decisions().len() == final(self).fed().len() / final(self).frame_len_spec(),
            old(self).decisions() == final(self).decisions().subrange(
                0,
                old(self).decisions().len() as int,
            ),
            judged_whole::<T, V>(
                final(self).fed(),
                final(self).decisions(),
                old(self).decisions().len() as int,
                final(self).frame_len_spec() as int,
            ),
    {
        let ghost start_fed = self.fed@;
        let ghost start_decisions = self.decisions@;
        let ghost frame_len0 = self.frame_len;
        let ghost frame_ms0 = self.frame_ms;
        let mut i: usize = 0;
        while i < samples.len()
            invariant
                self.wf(),
                i <= samples.len(),
                self.frame_len == frame_len0,
                self.frame_ms == frame_ms0,
                self.fed@ == start_fed + samples@.subrange(0, i as int),
                start_fed.len() + samples@.len() <= MAX_TRACKED_SAMPLES,
                start_decisions == self.decisions@.subrange(0, start_decisions.len() as int),
                start_decisions.len() <= self.decisions@.len(),
                judged_whole::<T, V>(
                    self.fed@,
                    self.decisions@,
                    start_decisions.len() as int,
                    self.frame_len as int,
                ),
            decreases samples.len() - i,
        {
            let sample = samples[i];
            let ghost fed_before = self.fed@;
            self.frame.push(sample);
            proof {
                self.fed@ = self.fed@.push(sample);
                let fl = self.frame_len as int;
                assert(fed_before =~= self.fed@.subrange(0, fed_before.len() as int));
                lemma_judged_after_growth::<T, V>(
                    fed_before,
                    self.fed@,
                    self.decisions@,
                    start_decisions.len() as int,
                    fl,
                );
                assert(samples@.subrange(0, i + 1) =~= samples@.subrange(0, i as int).push(sample));
                assert(self.frame@ =~= self.fed@.subrange(self.offset_samples as int, self.fed@.len() as int));
            }
            if self.frame.len() == self.frame_len {
                let ghost d = self.decisions@.len();
                let ghost decided = self.decisions@;
                let ghost judge = *vad;
                let ghost whole = self.frame@;
                let decision = vad.process(self.frame.as_slice());
                self.record(decision);
                self.frame.clear();
                proof {
                    let fl = self.frame_len as int;
                    assert((d + 1) * self.frame_len == d * self.frame_len + self.frame_len) by (nonlinear_arith);
                    assert(whole == self.fed@.subrange(d * fl, (d + 1) * fl));
                    lemma_judged_push::<T, V>(
                        self.fed@,
                        decided,
                        decision,
                        judge,
                        start_decisions.len() as int,
                        fl,
                    );
                    assert(judged_whole::<T, V>(self.fed@, self.decisions@, start_decisions.len() as int, fl));
                    assert(self.frame@ =~= self.fed@.subrange(self.offset_samples as int, self.fed@.len() as int));
                    assert(self.decisions@.subrange(0, start_decisions.len() as int) =~= start_decisions);
                }
            }
            i += 1;
        }
        proof {
            assert(samples@.subrange(0, samples.len() as int) =~= samples@);
            let f = self.frame_len as nat;
            let d = self.decisions@.len();
            assert(self.fed@.len() == d * f + self.frame@.len());
            assert((d * f + self.frame@.len()) / f == d) by (nonlinear_arith)
                requires
                    self.frame@.len() < f,
                    f >= 1,
            ;
        }
    }

    /// Book one whole frame's verdict.
    fn record(&mut self, decision: Decision)
        requires
            old(self).frame@.len() == old(self).frame_len,
            old(self).frame_len >= 1,
            old(self).frame_ms as nat == frame_ms_of(old(self).frame_len as nat),
            old(self).frame_ms <= old(self).frame_len,
            old(self).fed@.len() <= MAX_TRACKED_SAMPLES,
            old(self).offset_samples as nat == old(self).decisions@.len() * old(self).frame_len,
            old(self).fed@.len() == old(self).offset_samples + old(self).frame@.len(),
            old(self).summary == summary_of(
                old(self).decisions@,
                old(self).frame_len as nat,
                old(self).frame_ms as nat,
            ),
            old(self).summary.speech_ms as nat == speech_frames(old(self).decisions@)
                * old(self).frame_ms,
            speech_frames(old(self).decisions@) <= old(self).decisions@.len(),
        ensures
            final(self).frame == old(self).frame,
            final(self).frame_len == old(self).frame_len,
            final(self).frame_ms == old(self).frame_ms,
            final(self).fed == old(self).fed,
            final(self).decisions@ == old(self).decisions@.push(decision),
            final(self).offset_samples == old(self).offset_samples + old(self).frame_len,
            final(self).summary == summary_of(
                final(self).decisions@,
                final(self).frame_len as nat,
                final(self).frame_ms as nat,
            ),
            final(self).summary.speech_ms as nat == speech_frames(final(self).decisions@)
                * final(self).frame_ms,
            speech_frames(final(self).decisions@) <= final(self).decisions@.len(),
    {
        let ghost before = self.decisions@;
        let ghost index = self.decisions@.len();
        let ghost f = self.frame_len as nat;
        let ghost ms = self.frame_ms as nat;
        proof {
            assert(speech_frames(before) * ms <= before.len() * f) by (nonlinear_arith)
                requires
                    speech_frames(before) <= before.len(),
                    ms <= f,
            ;
            assert((before.len() + 1) * f == before.len() * f + f) by (nonlinear_arith);
        }
        let start = self.offset_samples;
        let end = self.offset_samples + self.frame_len as u64;
        self.decisions = Ghost(self.decisions@.push(decision));
        proof {
            assert(self.decisions@.drop_last() =~= before);
        }
        if decision == Decision::Speech {
            self.summary.has_speech = true;
            self.summary.speech_ms = self.summary.speech_ms + self.frame_ms as u32;
            if self.summary.first_speech_at.is_none() {
                self.summary.first_speech_at = Some(samples_to_duration(start));
            }
            self.summary.last_speech_at = Some(samples_to_duration(end));
            proof {
                assert((speech_frames(before) + 1) * ms == speech_frames(before) * ms + ms) by (nonlinear_arith);
                assert(((index + 1) * f) as u64 == end);
            }
        }
        self.offset_samples = end;
    }

    /// The summary as it stands; a trailing partial frame is not classified.
    pub fn summary(&self) -> (summary: SpeechSummary)
        requires
            self.wf(),
        ensures
            summary == self.summary_spec(),
            summary == summary_of(self.decisions(), self.frame_len_spec(), self.frame_ms_spec()),
    {
        self.summary
    }
}

} // verus!
