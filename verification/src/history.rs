//! Bounded FIFO sample buffers behind the trend charts.
//!
//! A buffer keeps at most [`HISTORY_CAPACITY`] samples.  Appending beyond
//! that evicts exactly the oldest sample, so the buffer always holds the
//! most recent appends in insertion order.

use vstd::prelude::*;

verus! {

/// Largest number of samples a history buffer retains.
pub const HISTORY_CAPACITY: usize = 60;

/// Sequence left after appending `v` to a buffer holding `s`: the new sample
/// goes to the tail, and the head is evicted when the capacity would be
/// exceeded.
pub open spec fn hist_step<T>(s: Seq<T>, v: T) -> Seq<T> {
    if s.len() < HISTORY_CAPACITY {
        s.push(v)
    } else {
        s.push(v).drop_first()
    }
}

/// Buffer contents after appending every value of `vals`, in order, to an
/// initially empty buffer.
pub open spec fn hist_run<T>(vals: Seq<T>) -> Seq<T>
    decreases vals.len(),
{
    if vals.len() == 0 {
        Seq::empty()
    } else {
        hist_step(hist_run(vals.drop_last()), vals.last())
    }
}

/// Fixed-capacity FIFO sequence of recent samples.
#[derive(Clone, Debug, PartialEq)]
pub struct HistoryBuffer<T> {
    samples: Vec<T>,
}

impl<T> View for HistoryBuffer<T> {
    type V = Seq<T>;

    closed spec fn view(&self) -> Seq<T> {
        self.samples@
    }
}

impl<T> HistoryBuffer<T> {
    /// The buffer never holds more than the capacity.
    pub open spec fn wf(&self) -> bool {
        self@.len() <= HISTORY_CAPACITY
    }

    pub fn new() -> (r: HistoryBuffer<T>)
        ensures
            r@ == Seq::<T>::empty(),
            r.wf(),
    {
        HistoryBuffer { samples: Vec::new() }
    }

    /// Seeds a buffer with the given samples.
    pub fn from_samples(samples: Vec<T>) -> (r: HistoryBuffer<T>)
        requires
            samples@.len() <= HISTORY_CAPACITY,
        ensures
            r@ == samples@,
            r.wf(),
    {
        HistoryBuffer { samples }
    }

    /// Pushes `value` to the tail; when the resulting length would exceed
    /// the capacity, evicts exactly the oldest sample and nothing else.
    pub fn append(&mut self, value: T)
        requires
            old(self).wf(),
        ensures
            final(self)@ == hist_step(old(self)@, value),
            final(self).wf(),
    {
        self.samples.push(value);
        if self.samples.len() > HISTORY_CAPACITY {
            self.samples.remove(0);
            proof {
                assert(self.samples@ =~= old(self)@.push(value).drop_first());
            }
        }
    }

    pub fn len(&self) -> (r: usize)
        ensures
            r == self@.len(),
    {
        self.samples.len()
    }

    /// Read-only access to the retained samples, oldest first.
    pub fn samples(&self) -> (r: &Vec<T>)
        ensures
            r@ == self@,
    {
        &self.samples
    }
}

/// After appending any sequence `vals` to an initially empty buffer, the
/// buffer holds exactly the last `HISTORY_CAPACITY` of the appended values
/// (all of them when fewer were appended), in insertion order.
pub proof fn lemma_hist_run<T>(vals: Seq<T>)
    ensures
        hist_run(vals).len() == if vals.len() <= HISTORY_CAPACITY {
            vals.len() as int
        } else {
            HISTORY_CAPACITY as int
        },
        hist_run(vals) =~= vals.subrange(
            if vals.len() <= HISTORY_CAPACITY {
                0
            } else {
                vals.len() - HISTORY_CAPACITY
            },
            vals.len() as int,
        ),
    decreases vals.len(),
{
    if vals.len() > 0 {
        lemma_hist_run(vals.drop_last());
        assert(vals.drop_last() =~= vals.subrange(0, vals.len() - 1));
    }
}

/// Appending one more value relates `hist_run` to a single `hist_step`.
pub proof fn lemma_hist_run_step<T>(vals: Seq<T>, v: T)
    ensures
        hist_run(vals.push(v)) == hist_step(hist_run(vals), v),
{
    assert(vals.push(v).drop_last() =~= vals);
    assert(vals.push(v).last() == v);
}

} // verus!
