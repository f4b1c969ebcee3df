//! A fixed-length window of samples that rotates in place.

use vstd::prelude::*;

verus! {

/// A window over the last `N` samples of a series. Index 0 is the newest
/// sample; pushing a sample drops the oldest one, so the length never changes.
pub struct RotatingBuffer<T> {
    data: Vec<T>,
    start: usize,
}

/// Where the `index`-th newest sample lies in a ring of `len` slots whose
/// newest sample lies at `start`.
pub open spec fn ring_position(start: int, index: int, len: int) -> int {
    if start + index >= len {
        start + index - len
    } else {
        start + index
    }
}

/// The window after `value` has been shifted in: `value` in front, the
/// oldest sample gone. A window without room stays empty.
pub open spec fn shifted<T>(samples: Seq<T>, value: T) -> Seq<T> {
    if samples.len() == 0 {
        samples
    } else {
        seq![value] + samples.drop_last()
    }
}

/// The window after `values` have been shifted in one after the other, the
/// first of them first.
pub open spec fn shifted_all<T>(samples: Seq<T>, values: Seq<T>) -> Seq<T>
    decreases values.len(),
{
    if values.len() == 0 {
        samples
    } else {
        shifted(shifted_all(samples, values.drop_last()), values.last())
    }
}

/// However many samples are shifted in, the window keeps its length. If it
/// has room at all, its samples are then the values that came last, newest
/// first, followed by as many of the samples it had as still fit; so index
/// 0 holds the value that came last.
pub proof fn lemma_window_after_shifts<T>(samples: Seq<T>, values: Seq<T>)
    ensures
        shifted_all(samples, values).len() == samples.len(),
        samples.len() > 0 && values.len() > 0 ==> shifted_all(samples, values)[0] == values.last(),
        forall|k: int|
            0 <= k < samples.len() ==> #[trigger] shifted_all(samples, values)[k] == if k
                < values.len() {
                values[values.len() - 1 - k]
            } else {
                samples[k - values.len()]
            },
    decreases values.len(),
{
    if values.len() > 0 {
        lemma_window_after_shifts(samples, values.drop_last());
    }
}

impl<T> View for RotatingBuffer<T> {
    type V = Seq<T>;

    /// The samples, newest first.
    closed spec fn view(&self) -> Seq<T> {
        Seq::new(
            self.data@.len(),
            |i: int| self.data@[ring_position(self.start as int, i, self.data@.len() as int)],
        )
    }
}

impl<T> RotatingBuffer<T> {
    /// The ring's start lies inside it.
    pub closed spec fn wf(&self) -> bool {
        self.start < self.data@.len() || (self.start == 0 && self.data@.len() == 0)
    }

    /// A buffer holding `samples`, the first of them counted as the newest.
    pub fn new(samples: Vec<T>) -> (buffer: Self)
        ensures
            buffer.wf(),
            buffer@ == samples@,
    {
        let buffer = RotatingBuffer { data: samples, start: 0 };
        assert(buffer@ =~= samples@);
        buffer
    }

    /// The fixed number of samples.
    pub fn len(&self) -> (n: usize)
        ensures
            n == self@.len(),
    {
        self.data.len()
    }

    /// Whether the buffer has no room at all.
    pub fn is_empty(&self) -> (b: bool)
        ensures
            b == (self@.len() == 0),
    {
        self.data.len() == 0
    }

    fn slot(&self, index: usize) -> (p: usize)
        requires
            self.wf(),
            index < self.data@.len(),
        ensures
            p == ring_position(self.start as int, index as int, self.data@.len() as int),
            p < self.data@.len(),
    {
        let room: usize = self.data.len() - self.start;
        if index >= room {
            index - room
        } else {
            self.start + index
        }
    }

    /// Shifts `value` in as the newest sample and drops the oldest. A buffer
    /// without room stays empty.
    pub fn push_front(&mut self, value: T)
        requires
            old(self).wf(),
        ensures
            final(self).wf(),
            final(self)@ == shifted(old(self)@, value),
            final(self)@.len() == old(self)@.len(),
    {
        let len: usize = self.data.len();
        if len == 0 {
            assert(self@ =~= old(self)@);
            return ;
        }
        if self.start > 0 {
            self.start = self.start - 1;
        } else {
            self.start = len - 1;
        }
        self.data.set(self.start, value);
        assert(self@ =~= seq![value] + old(self)@.drop_last());
    }

    /// The `index`-th newest sample, or `None` past the end.
    pub fn get(&self, index: usize) -> (sample: Option<&T>)
        requires
            self.wf(),
        ensures
            index < self@.len() ==> sample == Some(&self@[index as int]),
            index >= self@.len() ==> sample is None,
    {
        if index < self.data.len() {
            let p = self.slot(index);
            Some(&self.data[p])
        } else {
            None
        }
    }

    /// A handle on the `index`-th newest sample, or `None` past the end.
    /// Whatever is written through the handle is what the buffer then holds
    /// at that index; nothing else changes.
    pub fn get_mut(&mut self, index: usize) -> (sample: Option<&mut T>)
        requires
            old(self).wf(),
        ensures
            final(self).wf(),
            match sample {
                Some(handle) => {
                    &&& index < old(self)@.len()
                    &&& *handle == old(self)@[index as int]
                    &&& final(self)@ == old(self)@.update(index as int, *final(handle))
                },
                None => index >= old(self)@.len() && final(self)@ == old(self)@,
            },
    {
        if index < self.data.len() {
            let p = self.slot(index);
            Some(&mut self.data[p])
        } else {
            None
        }
    }

    /// Overwrites the `index`-th newest sample. Past the end nothing is
    /// written and `false` comes back.
    pub fn set(&mut self, index: usize, value: T) -> (written: bool)
        requires
            old(self).wf(),
        ensures
            final(self).wf(),
            written == (index < old(self)@.len()),
            written ==> final(self)@ == old(self)@.update(index as int, value),
            !written ==> final(self)@ == old(self)@,
    {
        if index < self.data.len() {
            let p = self.slot(index);
            self.data.set(p, value);
            assert(self@ =~= old(self)@.update(index as int, value));
            true
        } else {
            false
        }
    }
}

} // verus!
