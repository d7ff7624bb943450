//! The bounded queue between the bus and the subscriber callbacks.
//!
//! Samples wait here for the run loop, first in, first out. The queue never
//! holds more than its capacity: a sample that arrives while it is full is
//! handed back to be dropped, so that the bus is never made to wait.
use vstd::prelude::*;

verus! {

/// How many samples may wait for dispatch.
pub const DISPATCH_CHANNEL_CAPACITY: usize = 100;

/// The samples that wait for dispatch, oldest first.
pub struct DispatchQueue<T> {
    waiting: Vec<T>,
}

impl<T> DispatchQueue<T> {
    /// The samples that wait, oldest first.
    pub closed spec fn waiting(&self) -> Seq<T> {
        self.waiting@
    }

    /// The queue holds no more than its capacity.
    pub open spec fn wf(&self) -> bool {
        self.waiting().len() <= DISPATCH_CHANNEL_CAPACITY
    }

    /// An empty queue.
    pub fn new() -> (queue: Self)
        ensures
            queue.wf(),
            queue.waiting().len() == 0,
    {
        DispatchQueue { waiting: Vec::new() }
    }

    /// How many samples wait.
    pub fn len(&self) -> (n: usize)
        ensures
            n == self.waiting().len(),
    {
        self.waiting.len()
    }

    /// Whether the next sample would be dropped.
    pub fn is_full(&self) -> (full: bool)
        ensures
            full == (self.waiting().len() >= DISPATCH_CHANNEL_CAPACITY),
    {
        self.waiting.len() >= DISPATCH_CHANNEL_CAPACITY
    }

    /// Puts `sample` at the end of the queue, or hands it back, to be dropped
    /// and logged, where the queue is full.
    pub fn offer(&mut self, sample: T) -> (dropped: Option<T>)
        requires
            old(self).wf(),
        ensures
            final(self).wf(),
            match dropped {
                None => {
                    &&& old(self).waiting().len() < DISPATCH_CHANNEL_CAPACITY
                    &&& final(self).waiting() == old(self).waiting().push(sample)
                },
                Some(back) => old(self).waiting().len() == DISPATCH_CHANNEL_CAPACITY && back
                    == sample && final(self).waiting() == old(self).waiting(),
            },
    {
        if self.waiting.len() >= DISPATCH_CHANNEL_CAPACITY {
            Some(sample)
        } else {
            self.waiting.push(sample);
            None
        }
    }

    /// Takes the oldest sample out, if any waits.
    pub fn take(&mut self) -> (next: Option<T>)
        requires
            old(self).wf(),
        ensures
            final(self).wf(),
            match next {
                Some(sample) => old(self).waiting().len() > 0 && sample == old(self).waiting()[0]
                    && final(self).waiting() == old(self).waiting().drop_first(),
                None => {
                    &&& old(self).waiting().len() == 0
                    &&& final(self).waiting() == old(self).waiting()
                },
            },
    {
        if self.waiting.len() == 0 {
            None
        } else {
            let sample = self.waiting.remove(0);
            assert(self.waiting@ =~= old(self).waiting@.drop_first());
            Some(sample)
        }
    }
}

} // verus!
