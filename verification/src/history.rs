//! Bounded sensor histories.

use std::collections::VecDeque;
use vstd::prelude::*;

verus! {

/// Number of samples that a sensor history keeps: one hour at one sample
/// every five seconds.
pub const INDOOR_HISTORY_MAX: usize = 720;

/// A bounded first-in, first-out history: once it is full, each new sample
/// pushes the oldest one out.
pub struct History<T> {
    samples: VecDeque<T>,
    capacity: usize,
}

impl<T> View for History<T> {
    type V = Seq<T>;

    closed spec fn view(&self) -> Seq<T> {
        self.samples@
    }
}

/// The samples of a history of the given capacity after `value` is pushed.
pub open spec fn pushed<T>(samples: Seq<T>, capacity: int, value: T) -> Seq<T> {
    if samples.len() >= capacity && samples.len() > 0 {
        samples.drop_first().push(value)
    } else {
        samples.push(value)
    }
}

impl<T> History<T> {
    pub closed spec fn capacity(&self) -> int {
        self.capacity as int
    }

    /// The history never holds more than its capacity.
    pub open spec fn wf(&self) -> bool {
        self.capacity() >= 1 && self@.len() <= self.capacity()
    }

    /// An empty history that keeps up to `capacity` samples.
    pub fn new(capacity: usize) -> (h: History<T>)
        requires
            capacity >= 1,
        ensures
            h@ == Seq::<T>::empty(),
            h.capacity() == capacity,
            h.wf(),
    {
        History { samples: VecDeque::new(), capacity }
    }

    pub fn len(&self) -> (n: usize)
        ensures
            n == self@.len(),
    {
        self.samples.len()
    }

    pub fn is_empty(&self) -> (e: bool)
        ensures
            e == (self@.len() == 0),
    {
        self.samples.len() == 0
    }

    /// Appends a sample, evicting the oldest one when the history is full.
    pub fn push(&mut self, value: T)
        requires
            old(self).wf(),
        ensures
            final(self)@ == pushed(old(self)@, old(self).capacity(), value),
            final(self).capacity() == old(self).capacity(),
            final(self).wf(),
    {
        if self.samples.len() >= self.capacity {
            let _ = self.samples.pop_front();
        }
        self.samples.push_back(value);
        assert(old(self)@.len() > 0 ==> old(self)@.drop_first() =~= old(self)@.subrange(
            1,
            old(self)@.len() as int,
        ));
    }

    /// The sample at position `i`, the oldest one first.
    pub fn get(&self, i: usize) -> (v: Option<&T>)
        ensures
            match v {
                Some(s) => i < self@.len() && *s == self@[i as int],
                None => i >= self@.len(),
            },
    {
        if i < self.samples.len() {
            Some(&self.samples[i])
        } else {
            None
        }
    }
}

impl<T: Copy> History<T> {
    /// The samples from the oldest to the newest.
    pub fn to_vec(&self) -> (v: Vec<T>)
        ensures
            v@ == self@,
    {
        let n: usize = self.samples.len();
        let mut v: Vec<T> = Vec::new();
        let mut i: usize = 0;
        while i < n
            invariant
                i <= n,
                n == self.samples@.len(),
                v@ == self.samples@.take(i as int),
            decreases n - i,
        {
            v.push(self.samples[i]);
            assert(self.samples@.take(i + 1) =~= self.samples@.take(i as int).push(
                self.samples@[i as int],
            ));
            i += 1;
        }
        assert(self.samples@.take(n as int) =~= self.samples@);
        v
    }
}

/// Pushing into a full history keeps its length, drops exactly the oldest
/// sample, keeps the order of the others and puts the new sample last.
pub proof fn lemma_push_on_full_evicts_oldest<T>(samples: Seq<T>, capacity: int, value: T)
    requires
        capacity >= 1,
        samples.len() == capacity,
    ensures
        pushed(samples, capacity, value).len() == capacity,
        pushed(samples, capacity, value).last() == value,
        forall|i: int|
            0 <= i < capacity - 1 ==> pushed(samples, capacity, value)[i] == samples[i + 1],
{
}

/// Pushing into a history that is not full keeps every sample and appends
/// the new one.
pub proof fn lemma_push_below_capacity_keeps_all<T>(samples: Seq<T>, capacity: int, value: T)
    requires
        capacity >= 1,
        samples.len() < capacity,
    ensures
        pushed(samples, capacity, value) == samples.push(value),
        pushed(samples, capacity, value).len() <= capacity,
{
}

} // verus!
