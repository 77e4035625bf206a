//! Bounded first-in, first-out buffers: the sample histories behind the
//! charts and the log of input events.

use vstd::prelude::*;
use std::collections::VecDeque;

verus! {

/// Number of samples that a chart history keeps.
pub const HISTORY: usize = 300;

/// Number of lines that the input log keeps.
pub const INPUT_LOG_CAP: usize = 200;

/// The newest `cap` items of `s`, in their order; all of `s` where it holds
/// no more than `cap`.
pub open spec fn newest<T>(s: Seq<T>, cap: nat) -> Seq<T> {
    if s.len() <= cap {
        s
    } else {
        s.subrange(s.len() - cap, s.len() as int)
    }
}

/// What a buffer of capacity `cap` holds after `inputs` were pushed onto
/// `start` one by one.
pub open spec fn pushed_all<T>(start: Seq<T>, inputs: Seq<T>, cap: nat) -> Seq<T>
    decreases inputs.len(),
{
    if inputs.len() == 0 {
        start
    } else {
        newest(pushed_all(start, inputs.drop_last(), cap).push(inputs.last()), cap)
    }
}

/// Appends `v` to `q`, then drops items from the front until no more than
/// `cap` are left.
pub fn push_hist<T>(q: &mut VecDeque<T>, v: T, cap: usize)
    ensures
        final(q)@ == newest(old(q)@.push(v), cap as nat),
{
    let ghost target = newest(q@.push(v), cap as nat);
    q.push_back(v);
    while q.len() > cap
        invariant
            newest(q@, cap as nat) == target,
        decreases q@.len(),
    {
        let ghost before = q@;
        q.pop_front();
        assert(newest(q@, cap as nat) =~= newest(before, cap as nat));
    }
}

/// Appends `line` to an input log and keeps its newest `INPUT_LOG_CAP` lines.
pub fn push_log(q: &mut VecDeque<String>, line: String)
    ensures
        final(q)@ == newest(old(q)@.push(line), INPUT_LOG_CAP as nat),
{
    push_hist(q, line, INPUT_LOG_CAP);
}

/// The newest `n` items of `src`, oldest first.
pub fn last_n<T>(src: &VecDeque<T>, n: usize) -> (out: Vec<&T>)
    ensures
        out@.len() == newest(src@, n as nat).len(),
        forall|i: int| 0 <= i < out@.len() ==> *#[trigger] out@[i] == newest(src@, n as nat)[i],
{
    let len = src.len();
    let start = if len > n {
        len - n
    } else {
        0
    };
    let mut out: Vec<&T> = Vec::new();
    let mut i = start;
    while i < len
        invariant
            len == src@.len(),
            start <= i <= len,
            start == if len > n { len - n } else { 0 },
            out@.len() == i - start,
            forall|k: int| 0 <= k < out@.len() ==> *#[trigger] out@[k] == src@[start + k],
        decreases len - i,
    {
        out.push(&src[i]);
        i += 1;
    }
    out
}

/// A sequence of at most `capacity` items in arrival order. A push onto a
/// full buffer evicts the oldest item.
#[derive(Debug, Clone)]
pub struct HistoryBuffer<T> {
    items: VecDeque<T>,
    capacity: usize,
}

impl<T> View for HistoryBuffer<T> {
    type V = Seq<T>;

    /// The items, oldest first.
    closed spec fn view(&self) -> Seq<T> {
        self.items@
    }
}

impl<T> HistoryBuffer<T> {
    /// The number of items that the buffer keeps at most.
    pub closed spec fn spec_capacity(&self) -> nat {
        self.capacity as nat
    }

    /// The length never exceeds the capacity. `new` establishes this and
    /// `push` keeps it, and nothing else makes or changes a buffer.
    pub open spec fn wf(&self) -> bool {
        self@.len() <= self.spec_capacity()
    }

    /// An empty buffer that keeps at most `capacity` items.
    pub fn new(capacity: usize) -> (buf: Self)
        ensures
            buf@ == Seq::<T>::empty(),
            buf.spec_capacity() == capacity,
            buf.wf(),
    {
        HistoryBuffer { items: VecDeque::new(), capacity }
    }

    pub fn capacity(&self) -> (cap: usize)
        ensures
            cap == self.spec_capacity(),
    {
        self.capacity
    }

    pub fn len(&self) -> (len: usize)
        ensures
            len == self@.len(),
    {
        self.items.len()
    }

    pub fn is_empty(&self) -> (empty: bool)
        ensures
            empty == (self@.len() == 0),
    {
        self.items.len() == 0
    }

    /// Appends `v`; where the buffer was full, its oldest item leaves.
    pub fn push(&mut self, v: T)
        ensures
            final(self)@ == newest(old(self)@.push(v), old(self).spec_capacity()),
            final(self).spec_capacity() == old(self).spec_capacity(),
            final(self).wf(),
    {
        let cap = self.capacity;
        push_hist(&mut self.items, v, cap);
    }

    /// The item at position `i`, counted from the oldest.
    pub fn get(&self, i: usize) -> (item: Option<&T>)
        ensures
            i < self@.len() ==> item == Some(&self@[i as int]),
            i >= self@.len() ==> item is None,
    {
        if i < self.items.len() {
            Some(&self.items[i])
        } else {
            None
        }
    }

    /// The newest item.
    pub fn latest(&self) -> (item: Option<&T>)
        ensures
            self@.len() > 0 ==> item == Some(&self@.last()),
            self@.len() == 0 ==> item is None,
    {
        let len = self.items.len();
        if len > 0 {
            Some(&self.items[len - 1])
        } else {
            None
        }
    }

    /// The newest `n` items, oldest first.
    pub fn last_n(&self, n: usize) -> (out: Vec<&T>)
        ensures
            out@.len() == newest(self@, n as nat).len(),
            forall|i: int| 0 <= i < out@.len() ==> *#[trigger] out@[i] == newest(self@, n as nat)[i],
    {
        last_n(&self.items, n)
    }
}

/// Pushing onto what was kept of a sequence keeps the same items as pushing
/// onto the sequence itself.
pub proof fn lemma_newest_push<T>(s: Seq<T>, v: T, cap: nat)
    ensures
        newest(newest(s, cap).push(v), cap) == newest(s.push(v), cap),
{
    assert(newest(newest(s, cap).push(v), cap) =~= newest(s.push(v), cap));
}

/// A buffer that took `inputs` one by one holds the newest `cap` items of
/// everything it was given, in the order given.
pub proof fn lemma_pushed_all_keeps_newest<T>(start: Seq<T>, inputs: Seq<T>, cap: nat)
    requires
        start.len() <= cap,
    ensures
        pushed_all(start, inputs, cap) == newest(start + inputs, cap),
        pushed_all(start, inputs, cap).len() == if start.len() + inputs.len() <= cap {
            start.len() + inputs.len()
        } else {
            cap
        },
    decreases inputs.len(),
{
    if inputs.len() == 0 {
        assert(start + inputs =~= start);
    } else {
        let front = inputs.drop_last();
        lemma_pushed_all_keeps_newest(start, front, cap);
        lemma_newest_push(start + front, inputs.last(), cap);
        assert((start + front).push(inputs.last()) =~= start + inputs);
    }
}

/// After more pushes than the capacity, an empty buffer holds exactly the
/// last `cap` values pushed.
pub proof fn lemma_overfilled_buffer<T>(inputs: Seq<T>, cap: nat)
    requires
        inputs.len() > cap,
    ensures
        pushed_all(Seq::<T>::empty(), inputs, cap).len() == cap,
        pushed_all(Seq::<T>::empty(), inputs, cap) == inputs.subrange(
            inputs.len() - cap,
            inputs.len() as int,
        ),
{
    lemma_pushed_all_keeps_newest(Seq::<T>::empty(), inputs, cap);
    assert(Seq::<T>::empty() + inputs =~= inputs);
}

} // verus!
