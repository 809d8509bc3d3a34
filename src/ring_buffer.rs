//! A bounded first-in first-out store of samples that drops its oldest
//! samples rather than refuse new ones.
use std::collections::VecDeque;
use vstd::prelude::*;

verus! {

/// The last `capacity` elements of `s`, in order; all of `s` when it is no
/// longer than that.
pub open spec fn newest<T>(s: Seq<T>, capacity: nat) -> Seq<T> {
    if s.len() > capacity {
        s.subrange(s.len() - capacity, s.len() as int)
    } else {
        s
    }
}

/// Samples in capture order, never more than `capacity` of them.
pub struct CaptureRingBuffer<T> {
    items: VecDeque<T>,
    capacity: usize,
}

impl<T> View for CaptureRingBuffer<T> {
    type V = Seq<T>;

    closed spec fn view(&self) -> Seq<T> {
        self.items@
    }
}

impl<T> CaptureRingBuffer<T> {
    /// Never more samples than the capacity.
    pub open spec fn wf(&self) -> bool {
        self@.len() <= self.spec_capacity()
    }

    pub closed spec fn spec_capacity(&self) -> usize {
        self.capacity
    }

    /// An empty buffer that holds at most `capacity` samples.
    pub fn new(capacity: usize) -> (r: Self)
        ensures
            r.wf(),
            r@ == Seq::<T>::empty(),
            r.spec_capacity() == capacity,
    {
        CaptureRingBuffer { items: VecDeque::new(), capacity }
    }

    #[verifier::when_used_as_spec(spec_capacity)]
    pub fn capacity(&self) -> (r: usize)
        ensures
            r == self.spec_capacity(),
    {
        self.capacity
    }

    pub fn len(&self) -> (r: usize)
        requires
            self.wf(),
        ensures
            r == self@.len(),
            r <= self.spec_capacity(),
    {
        self.items.len()
    }

    /// Removes and returns the `chunk_len` oldest samples, in order, when the
    /// buffer holds at least that many; otherwise leaves it as it is.
    pub fn drain_chunk(&mut self, chunk_len: usize) -> (r: Option<Vec<T>>)
        requires
            old(self).wf(),
        ensures
            final(self).wf(),
            final(self).spec_capacity() == old(self).spec_capacity(),
            old(self)@.len() < chunk_len ==> r is None && final(self)@ == old(self)@,
            old(self)@.len() >= chunk_len ==> r is Some && r->0@ == old(self)@.subrange(
                0,
                chunk_len as int,
            ) && final(self)@ == old(self)@.subrange(chunk_len as int, old(self)@.len() as int),
    {
        if self.items.len() < chunk_len {
            return None;
        }
        let mut chunk: Vec<T> = Vec::with_capacity(chunk_len);
        let mut i: usize = 0;
        while i < chunk_len
            invariant
                i <= chunk_len <= old(self)@.len(),
                self.capacity == old(self).capacity,
                chunk@ == old(self)@.subrange(0, i as int),
                self.items@ == old(self)@.subrange(i as int, old(self)@.len() as int),
            decreases chunk_len - i,
        {
            let front = self.items.pop_front();
            match front {
                Some(s) => {
                    chunk.push(s);
                },
                None => {},
            }
            proof {
                assert(chunk@ =~= old(self)@.subrange(0, i + 1));
                assert(self.items@ =~= old(self)@.subrange(i + 1, old(self)@.len() as int));
            }
            i = i + 1;
        }
        Some(chunk)
    }

    /// Removes and returns everything, oldest first.
    pub fn drain_all(&mut self) -> (r: Vec<T>)
        requires
            old(self).wf(),
        ensures
            final(self).wf(),
            r@ == old(self)@,
            final(self)@ == Seq::<T>::empty(),
            final(self).spec_capacity() == old(self).spec_capacity(),
    {
        let n = self.len();
        let drained = self.drain_chunk(n);
        match drained {
            Some(all) => {
                proof {
                    assert(all@ =~= old(self)@);
                }
                all
            },
            None => Vec::new(),
        }
    }

    /// Empties the buffer and keeps its capacity.
    pub fn clear(&mut self)
        ensures
            final(self).wf(),
            final(self)@ == Seq::<T>::empty(),
            final(self).spec_capacity() == old(self).spec_capacity(),
    {
        self.items.clear();
    }

    /// Empties the buffer and gives it a new capacity.
    pub fn reset(&mut self, capacity: usize)
        ensures
            final(self).wf(),
            final(self)@ == Seq::<T>::empty(),
            final(self).spec_capacity() == capacity,
    {
        self.items.clear();
        self.capacity = capacity;
    }
}

impl<T: Copy> CaptureRingBuffer<T> {
    /// Appends `samples`, then drops samples from the front while the buffer
    /// holds more than its capacity.
    pub fn push(&mut self, samples: &[T])
        requires
            old(self).wf(),
        ensures
            final(self).wf(),
            final(self)@ == newest(old(self)@ + samples@, old(self).spec_capacity() as nat),
            final(self).spec_capacity() == old(self).spec_capacity(),
    {
        let ghost all = old(self)@ + samples@;
        let mut i: usize = 0;
        while i < samples.len()
            invariant
                i <= samples@.len(),
                all == old(self)@ + samples@,
                self.capacity == old(self).capacity,
                self.items@ == old(self)@ + samples@.subrange(0, i as int),
            decreases samples@.len() - i,
        {
            self.items.push_back(samples[i]);
            proof {
                assert(samples@.subrange(0, i + 1) =~= samples@.subrange(0, i as int).push(
                    samples@[i as int],
                ));
            }
            i = i + 1;
        }
        proof {
            assert(samples@.subrange(0, samples@.len() as int) =~= samples@);
        }
        let ghost dropped: int = 0;
        while self.items.len() > self.capacity
            invariant
                0 <= dropped <= all.len(),
                self.items@ == all.subrange(dropped, all.len() as int),
                self.capacity == old(self).capacity,
                old(self).items@.len() <= self.capacity,
                dropped > 0 ==> all.len() - dropped >= self.capacity,
            decreases self.items@.len(),
        {
            self.items.pop_front();
            proof {
                dropped = dropped + 1;
            }
        }
        proof {
            assert(self.items@ =~= newest(all, self.capacity as nat));
        }
    }
}

/// Whatever is pushed, the buffer ends within its capacity; and when more
/// samples than the capacity arrive, it keeps exactly the last `capacity` of
/// them, in the order they arrived.
pub proof fn lemma_push_keeps_newest<T>(held: Seq<T>, samples: Seq<T>, capacity: nat)
    ensures
        newest(held + samples, capacity).len() <= capacity,
        samples.len() > capacity ==> newest(held + samples, capacity) == samples.subrange(
            samples.len() - capacity,
            samples.len() as int,
        ),
{
    let all = held + samples;
    if samples.len() > capacity {
        assert(newest(all, capacity) =~= samples.subrange(
            samples.len() - capacity,
            samples.len() as int,
        ));
    }
}

/// Two successful drains in a row, of `a` and then `b` samples, take
/// consecutive stretches that do not overlap: together they are the first
/// `a + b` samples in the order they arrived, and the rest stays behind.
pub proof fn lemma_drains_consecutive<T>(held: Seq<T>, a: nat, b: nat)
    requires
        a + b <= held.len(),
    ensures
        ({
            let first = held.subrange(0, a as int);
            let rest = held.subrange(a as int, held.len() as int);
            let second = rest.subrange(0, b as int);
            &&& first + second == held.subrange(0, (a + b) as int)
            &&& rest.subrange(b as int, rest.len() as int) == held.subrange(
                (a + b) as int,
                held.len() as int,
            )
        }),
{
    let first = held.subrange(0, a as int);
    let rest = held.subrange(a as int, held.len() as int);
    let second = rest.subrange(0, b as int);
    assert(first + second =~= held.subrange(0, (a + b) as int));
    assert(rest.subrange(b as int, rest.len() as int) =~= held.subrange((a + b) as int, held.len() as int));
}

} // verus!
