//! The microphone program: the sample queue filled by the ADC interrupt and
//! drained by the main loop, and the range of the samples taken.

use vstd::prelude::*;
use crate::accelerometer::{reading_text, spec_reading_text};
use crate::canvas::{DrawOp, Point};

verus! {

#[verifier::external_type_specification]
#[verifier::external_body]
#[verifier::reject_recursive_types(T)]
pub struct ExSpscQueue<T, const N: usize>(heapless::spsc::Queue<T, N>);

/// The samples waiting in a heapless queue of 8 slots, oldest first.
pub uninterp spec fn queued(q: heapless::spsc::Queue<u16, 8>) -> Seq<u16>;

/// A heapless queue of `N` slots holds at most `N - 1` items.
pub const QUEUE_CAPACITY: usize = 7;

/// Calls heapless' `spsc::Queue::<u16, 8>::new`: an empty queue.
#[verifier::external_body]
fn queue_new() -> (q: heapless::spsc::Queue<u16, 8>)
    ensures
        queued(q) == Seq::<u16>::empty(),
{
    heapless::spsc::Queue::new()
}

/// Calls heapless' `spsc::Queue::<u16, 8>::enqueue`: the sample goes to the
/// back when fewer than 7 are waiting; otherwise it is handed back in
/// `Err` and the queue is unchanged.
#[verifier::external_body]
fn queue_enqueue(q: &mut heapless::spsc::Queue<u16, 8>, v: u16) -> (r: Result<(), u16>)
    ensures
        queued(*old(q)).len() < 7 ==> r is Ok && queued(*final(q)) == queued(*old(q)).push(v),
        queued(*old(q)).len() >= 7 ==> (r matches Err(w) && w == v) && queued(*final(q)) == queued(*old(q)),
{
    q.enqueue(v)
}

/// Calls heapless' `spsc::Queue::<u16, 8>::dequeue`: the oldest sample,
/// removed from the queue, or `None` when the queue is empty.
#[verifier::external_body]
fn queue_dequeue(q: &mut heapless::spsc::Queue<u16, 8>) -> (r: Option<u16>)
    ensures
        queued(*old(q)).len() == 0 ==> r is None && queued(*final(q)) == queued(*old(q)),
        queued(*old(q)).len() > 0 ==> r == Some(queued(*old(q))[0]) && queued(*final(q)) == queued(
            *old(q),
        ).drop_first(),
{
    q.dequeue()
}

/// An empty queue for the samples.
pub fn sample_queue() -> (q: heapless::spsc::Queue<u16, 8>)
    ensures
        queued(q) == Seq::<u16>::empty(),
{
    queue_new()
}

/// What the ADC interrupt does with a conversion result: a sample that is
/// ready joins the back of the queue. When 7 samples already wait, the
/// write wraps around onto the oldest one and the queue reads as empty:
/// the waiting samples and the new one are all lost, as with heapless'
/// unchecked enqueue. Returns whether the sample was queued.
pub fn store_sample(q: &mut heapless::spsc::Queue<u16, 8>, sample: Option<u16>) -> (stored: bool)
    ensures
        stored <==> (sample is Some && queued(*old(q)).len() < QUEUE_CAPACITY),
        stored ==> queued(*final(q)) == queued(*old(q)).push(sample->0),
        sample is None ==> queued(*final(q)) == queued(*old(q)),
        (sample is Some && queued(*old(q)).len() >= QUEUE_CAPACITY) ==> queued(*final(q))
            == Seq::<u16>::empty(),
{
    match sample {
        Some(v) => {
            if queue_enqueue(q, v).is_ok() {
                true
            } else {
                // take out everything that waits, as the wrapped write does
                let mut more = true;
                while more
                    invariant
                        !more ==> queued(*q) == Seq::<u16>::empty(),
                    decreases queued(*q).len() + if more { 1int } else { 0int },
                {
                    more = queue_dequeue(q).is_some();
                }
                false
            }
        },
        None => false,
    }
}

/// The oldest queued sample, taken off the queue; `None` when none waits.
pub fn take_sample(q: &mut heapless::spsc::Queue<u16, 8>) -> (r: Option<u16>)
    ensures
        queued(*old(q)).len() == 0 ==> r is None && queued(*final(q)) == queued(*old(q)),
        queued(*old(q)).len() > 0 ==> r == Some(queued(*old(q))[0]) && queued(*final(q)) == queued(
            *old(q),
        ).drop_first(),
{
    queue_dequeue(q)
}

/// A range widened to take in one more sample.
pub open spec fn widen(range: Option<(u16, u16)>, v: u16) -> Option<(u16, u16)> {
    match range {
        None => Some((v, v)),
        Some((lo, hi)) => Some((if v < lo { v } else { lo }, if hi < v { v } else { hi })),
    }
}

/// The smallest and the largest of the samples, `None` for no samples.
pub open spec fn extremes(s: Seq<u16>) -> Option<(u16, u16)>
    decreases s.len(),
{
    if s.len() == 0 {
        None
    } else {
        widen(extremes(s.drop_last()), s.last())
    }
}

/// The range of the samples taken so far.
pub struct SampleRange {
    seen: bool,
    lowest: u16,
    highest: u16,
}

impl SampleRange {
    /// The range as the smallest and the largest sample, once there is one.
    pub closed spec fn view(&self) -> Option<(u16, u16)> {
        if self.seen {
            Some((self.lowest, self.highest))
        } else {
            None
        }
    }

    /// No samples yet.
    pub fn new() -> (r: SampleRange)
        ensures
            r.view() is None,
    {
        SampleRange { seen: false, lowest: 0, highest: 0 }
    }

    /// Take one more sample into account.
    pub fn observe(&mut self, v: u16)
        ensures
            final(self).view() == widen(old(self).view(), v),
    {
        if !self.seen {
            self.seen = true;
            self.lowest = v;
            self.highest = v;
        } else {
            if v < self.lowest {
                self.lowest = v;
            }
            if self.highest < v {
                self.highest = v;
            }
        }
    }

    /// The smallest and the largest sample, once there is one.
    pub fn range(&self) -> (r: Option<(u16, u16)>)
        ensures
            r == self.view(),
    {
        if self.seen {
            Some((self.lowest, self.highest))
        } else {
            None
        }
    }
}

/// Law: taking one more sample into the range of a series of samples gives
/// the range of the longer series.
pub proof fn lemma_widen_push(s: Seq<u16>, v: u16)
    ensures
        extremes(s.push(v)) == widen(extremes(s), v),
{
    assert(s.push(v).drop_last() =~= s);
}

/// Law: the range of the samples bounds every sample, and both of its ends
/// are samples.
pub proof fn lemma_extremes_bound_samples(s: Seq<u16>)
    ensures
        s.len() == 0 <==> extremes(s) is None,
        extremes(s) matches Some((lo, hi)) ==> {
            &&& forall|i: int| 0 <= i < s.len() ==> lo <= #[trigger] s[i] <= hi
            &&& s.contains(lo)
            &&& s.contains(hi)
        },
    decreases s.len(),
{
    if s.len() > 0 {
        let p = s.drop_last();
        lemma_extremes_bound_samples(p);
        let v = s.last();
        assert(s[s.len() - 1] == v);
        assert forall|i: int| 0 <= i < p.len() implies #[trigger] s[i] == p[i] by {}
        match extremes(p) {
            None => {
                assert(s.len() == 1);
            },
            Some((lo, hi)) => {
                let j = choose|j: int| 0 <= j < p.len() && p[j] == lo;
                let k = choose|k: int| 0 <= k < p.len() && p[k] == hi;
                assert(s[j] == lo);
                assert(s[k] == hi);
            },
        }
    }
}

/// The sum of the samples, in large text near the top-left corner.
pub fn sum_text(text: String) -> (op: DrawOp)
    ensures
        op@ == spec_reading_text(text@, Point { x: 15, y: 15 }),
{
    reading_text(text, Point::new(15, 15))
}

} // verus!
