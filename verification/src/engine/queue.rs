//! What wakes the engine's supervisor, and in which order it is dealt with.

use vstd::prelude::*;

verus! {

/// What wakes the supervisor.
pub enum Wake<J> {
    /// A recording to transcribe.
    Job(J),
    /// The engine process of this generation has ended.
    HostDown(u64),
    /// The tier the settings ask for has changed; bring the engine up again on it.
    Retier,
    /// Throw the tier decision away and probe this machine again.
    Reprobe,
    /// The application is shutting down.
    Stop,
}

/// What the one-slot queue is holding.
pub struct Pending<J> {
    /// The newest recording nobody has taken yet.
    pub job: Option<J>,
    /// The newest generation of an engine process that has ended and not been dealt with.
    pub down: Option<u64>,
    /// The settings moved the tier and the engine has not been put back on it yet.
    pub retier: bool,
    /// The settings window asked for the probe to run again.
    pub reprobe: bool,
    /// The application is closing.
    pub stop: bool,
}

/// The answer `take` gives for `pending`, and what is left behind: a shutdown first, then a
/// dead engine, then a new probe, then a new tier, and a dictation last.
pub open spec fn next_wake<J>(pending: Pending<J>) -> (Option<Wake<J>>, Pending<J>) {
    if pending.stop {
        (Some(Wake::Stop), pending)
    } else if pending.down is Some {
        (Some(Wake::HostDown(pending.down->0)), Pending { down: None, ..pending })
    } else if pending.reprobe {
        (Some(Wake::Reprobe), Pending { reprobe: false, ..pending })
    } else if pending.retier {
        (Some(Wake::Retier), Pending { retier: false, ..pending })
    } else if pending.job is Some {
        (Some(Wake::Job(pending.job->0)), Pending { job: None, ..pending })
    } else {
        (None, pending)
    }
}

impl<J> Pending<J> {
    /// Nothing pending.
    pub fn new() -> (pending: Pending<J>)
        ensures
            pending.job is None,
            pending.down is None,
            !pending.retier,
            !pending.reprobe,
            !pending.stop,
    {
        Pending { job: None, down: None, retier: false, reprobe: false, stop: false }
    }

    /// Put a recording in the slot, dropping whatever was in it; says whether one was dropped.
    pub fn submit(&mut self, job: J) -> (dropped: bool)
        ensures
            dropped == old(self).job is Some,
            *final(self) == (Pending { job: Some(job), ..*old(self) }),
    {
        let dropped = self.job.is_some();
        self.job = Some(job);
        dropped
    }

    /// Report that the engine process of `generation` has ended; the newest one is kept.
    pub fn host_down(&mut self, generation: u64)
        ensures
            *final(self) == (Pending {
                down: Some(
                    match old(self).down {
                        Some(seen) => if seen >= generation {
                            seen
                        } else {
                            generation
                        },
                        None => generation,
                    },
                ),
                ..*old(self)
            }),
    {
        let newest = match self.down {
            Some(seen) => if seen >= generation {
                seen
            } else {
                generation
            },
            None => generation,
        };
        self.down = Some(newest);
    }

    /// Say that the tier the settings ask for has changed.
    pub fn retier(&mut self)
        ensures
            *final(self) == (Pending { retier: true, ..*old(self) }),
    {
        self.retier = true;
    }

    /// Say that the machine should be probed again.
    pub fn reprobe(&mut self)
        ensures
            *final(self) == (Pending { reprobe: true, ..*old(self) }),
    {
        self.reprobe = true;
    }

    /// Say that the application is closing.
    pub fn stop(&mut self)
        ensures
            *final(self) == (Pending { stop: true, ..*old(self) }),
    {
        self.stop = true;
    }

    /// Whether a shutdown has been asked for.
    pub fn stopping(&self) -> (stopping: bool)
        ensures
            stopping == self.stop,
    {
        self.stop
    }

    /// The most urgent thing pending, taken out of the queue; `None` when there is nothing
    /// and the caller has to wait.
    pub fn take(&mut self) -> (wake: Option<Wake<J>>)
        ensures
            (wake, *final(self)) == next_wake(*old(self)),
    {
        if self.stop {
            return Some(Wake::Stop);
        }
        if let Some(generation) = self.down {
            self.down = None;
            return Some(Wake::HostDown(generation));
        }
        if self.reprobe {
            self.reprobe = false;
            return Some(Wake::Reprobe);
        }
        if self.retier {
            self.retier = false;
            return Some(Wake::Retier);
        }
        match self.job.take() {
            Some(job) => Some(Wake::Job(job)),
            None => None,
        }
    }
}

/// A shutdown outranks everything, and it stays: every take after it answers `Stop` again.
pub proof fn lemma_stop_outranks_everything<J>(pending: Pending<J>)
    requires
        pending.stop,
    ensures
        next_wake(pending).0 == Some(Wake::<J>::Stop),
        next_wake(pending).1 == pending,
{
}

/// A dead engine is dealt with before a new dictation, and the dictation is still there
/// afterwards.
pub proof fn lemma_crash_before_dictation<J>(pending: Pending<J>, generation: u64, job: J)
    requires
        !pending.stop,
        !pending.reprobe,
        !pending.retier,
        pending.down == Some(generation),
        pending.job == Some(job),
    ensures
        next_wake(pending).0 == Some(Wake::<J>::HostDown(generation)),
        next_wake(next_wake(pending).1).0 == Some(Wake::Job(job)),
{
}

/// Nothing is lost by taking: what a take leaves behind is what was pending, without the
/// one thing it answered.
pub proof fn lemma_take_removes_only_its_answer<J>(pending: Pending<J>)
    requires
        !pending.stop,
    ensures
        next_wake(pending).0 is None <==> (pending.down is None && !pending.reprobe
            && !pending.retier && pending.job is None),
{
}

} // verus!
