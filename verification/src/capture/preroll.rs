//! The ring that holds the last few hundred milliseconds of audio while nothing is recorded.

use std::collections::VecDeque;
use vstd::prelude::*;

verus! {

/// The last `n` items of `s`, or all of it when it is no longer than that.
pub open spec fn last_n<T>(s: Seq<T>, n: nat) -> Seq<T> {
    if s.len() <= n {
        s
    } else {
        s.subrange(s.len() - n, s.len() as int)
    }
}

/// Taking the newest `n` in two pushes is the same as taking them in one.
pub proof fn lemma_last_n_twice<T>(a: Seq<T>, b: Seq<T>, c: Seq<T>, n: nat)
    ensures
        last_n(last_n(a + b, n) + c, n) == last_n(a + b + c, n),
{
    let ab = a + b;
    let kept = last_n(ab, n);
    if ab.len() > n {
        assert(last_n(kept + c, n) =~= last_n(ab + c, n));
    }
}

/// First-word protection: the newest `capacity` samples, oldest first.
pub struct PreRoll<T> {
    buffer: VecDeque<T>,
    capacity: usize,
}

impl<T: Copy> PreRoll<T> {
    /// What the ring holds, oldest first.
    pub closed spec fn contents(&self) -> Seq<T> {
        self.buffer@
    }

    /// How many samples the ring keeps at most.
    pub closed spec fn capacity_spec(&self) -> nat {
        self.capacity as nat
    }

    /// The ring never holds more than it keeps.
    pub open spec fn wf(&self) -> bool {
        self.contents().len() <= self.capacity_spec()
    }

    /// An empty ring that keeps `capacity` samples.
    pub fn new(capacity: usize) -> (ring: PreRoll<T>)
        ensures
            ring.wf(),
            ring.contents() == Seq::<T>::empty(),
            ring.capacity_spec() == capacity as nat,
    {
        PreRoll { buffer: VecDeque::new(), capacity }
    }

    /// How many samples the ring keeps at most.
    pub fn capacity(&self) -> (capacity: usize)
        ensures
            capacity as nat == self.capacity_spec(),
    {
        self.capacity
    }

    /// How many samples it holds right now.
    pub fn len(&self) -> (len: usize)
        requires
            self.wf(),
        ensures
            len as nat == self.contents().len(),
    {
        self.buffer.len()
    }

    /// Add samples, keeping only the newest `capacity` of everything seen.
    pub fn push(&mut self, samples: &[T])
        requires
            old(self).wf(),
        ensures
            final(self).wf(),
            final(self).capacity_spec() == old(self).capacity_spec(),
            final(self).contents() == last_n(
                old(self).contents() + samples@,
                old(self).capacity_spec(),
            ),
    {
        let ghost before = self.buffer@;
        let ghost all = before + samples@;
        if self.capacity == 0 {
            assert(last_n(all, 0) =~= Seq::<T>::empty());
            return;
        }
        let keep_from = if samples.len() > self.capacity {
            samples.len() - self.capacity
        } else {
            0
        };
        let ghost capacity = self.capacity;
        let mut i = keep_from;
        while i < samples.len()
            invariant
                keep_from <= i <= samples.len(),
                self.capacity == capacity,
                self.capacity > 0,
                self.buffer@.len() <= self.capacity,
                samples.len() > self.capacity ==> keep_from == samples.len() - self.capacity,
                samples.len() <= self.capacity ==> keep_from == 0,
                all == before + samples@,
                before.len() <= self.capacity,
                self.buffer@ == last_n(
                    before + samples@.subrange(keep_from as int, i as int),
                    self.capacity as nat,
                ),
            decreases samples.len() - i,
        {
            let ghost prefix = before + samples@.subrange(keep_from as int, i as int);
            if self.buffer.len() == self.capacity {
                let _ = self.buffer.pop_front();
            }
            self.buffer.push_back(samples[i]);
            proof {
                let next = before + samples@.subrange(keep_from as int, i + 1);
                assert(next =~= prefix.push(samples@[i as int]));
                assert(last_n(next, self.capacity as nat) =~= self.buffer@);
            }
            i += 1;
        }
        proof {
            if keep_from == 0 {
                assert(samples@.subrange(0, samples.len() as int) =~= samples@);
            } else {
                let tail = samples@.subrange(keep_from as int, samples.len() as int);
                assert(tail.len() == capacity);
                assert(last_n(before + tail, capacity as nat) =~= tail);
                assert(last_n(all, capacity as nat) =~= tail);
            }
        }
    }

    /// A copy of what the ring holds, oldest first, appended to `out`.
    pub fn drain_into(&self, out: &mut Vec<T>)
        requires
            self.wf(),
        ensures
            final(out)@ == old(out)@ + self.contents(),
    {
        let ghost start = out@;
        let mut i: usize = 0;
        while i < self.buffer.len()
            invariant
                i <= self.buffer@.len(),
                out@ == start + self.buffer@.subrange(0, i as int),
            decreases self.buffer@.len() - i,
        {
            out.push(self.buffer[i]);
            proof {
                assert(self.buffer@.subrange(0, i + 1) =~= self.buffer@.subrange(0, i as int).push(
                    self.buffer@[i as int],
                ));
            }
            i += 1;
        }
        proof {
            assert(self.buffer@.subrange(0, self.buffer@.len() as int) =~= self.buffer@);
        }
    }
}

} // verus!
