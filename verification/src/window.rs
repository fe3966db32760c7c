//! A bounded history of samples, for a receiver of the feed.

use vstd::prelude::*;

verus! {

/// The last `limit` entries of `s`, or all of `s` where it holds no more
/// than that.
pub open spec fn latest<T>(s: Seq<T>, limit: nat) -> Seq<T> {
    if s.len() <= limit {
        s
    } else {
        s.subrange(s.len() - limit, s.len() as int)
    }
}

/// The most recent samples of one feed, oldest first, up to a fixed
/// number: once full, each new sample pushes the oldest one out.
#[derive(Debug)]
pub struct SampleWindow<T> {
    samples: Vec<T>,
    capacity: usize,
}

impl<T> View for SampleWindow<T> {
    type V = Seq<T>;

    closed spec fn view(&self) -> Seq<T> {
        self.samples@
    }
}

impl<T> SampleWindow<T> {
    /// The number of samples that the window keeps at most.
    pub closed spec fn limit(&self) -> nat {
        self.capacity as nat
    }

    /// An empty window that keeps up to `capacity` samples.
    pub fn new(capacity: usize) -> (r: SampleWindow<T>)
        ensures
            r@ == Seq::<T>::empty(),
            r.limit() == capacity,
    {
        SampleWindow { samples: Vec::new(), capacity }
    }

    /// The number of samples that the window keeps at most.
    pub fn capacity(&self) -> (r: usize)
        ensures
            r == self.limit(),
    {
        self.capacity
    }

    /// The number of samples held.
    pub fn len(&self) -> (r: usize)
        ensures
            r == self@.len(),
    {
        self.samples.len()
    }

    /// The samples held, oldest first.
    pub fn samples(&self) -> (r: &Vec<T>)
        ensures
            r@ == self@,
    {
        &self.samples
    }

    /// Adds `sample` as the newest one and drops what no longer fits,
    /// oldest first.
    pub fn push(&mut self, sample: T)
        ensures
            final(self).limit() == old(self).limit(),
            final(self)@ == latest(old(self)@.push(sample), old(self).limit()),
            final(self)@.len() <= final(self).limit(),
    {
        self.samples.push(sample);
        let len: usize = self.samples.len();
        if len > self.capacity {
            let kept: Vec<T> = self.samples.split_off(len - self.capacity);
            self.samples = kept;
        }
    }
}

} // verus!
