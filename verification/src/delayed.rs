use vstd::prelude::*;
use std::collections::VecDeque;

verus! {

/// An element with the tick at which it becomes available.
#[derive(Copy)]
pub struct Element<T> {
    pub element: T,
    pub time: u64,
}

impl<T: Copy> Clone for Element<T> {
    fn clone(&self) -> (r: Self)
        ensures
            r == *self,
    {
        *self
    }
}

/// A FIFO queue that returns elements after a delay: an element pushed before
/// pop number `n` (counting from 0) is returned by pop number `n + delay - 1`
/// at the earliest, and never before the elements pushed ahead of it.
pub struct Delayed<T> where T: Copy {
    pub delay: usize,
    pub current_time: u64,
    pub elements: VecDeque<Element<T>>,
}

impl<T: Copy> Delayed<T> {
    /// The waiting elements are due in the order they were pushed, none
    /// later than `delay - 1` ticks from now, and there are at most `delay`.
    pub open spec fn wf(&self) -> bool {
        &&& self.elements@.len() <= self.delay
        &&& forall|i: int, j: int|
            0 <= i < j < self.elements@.len() ==> #[trigger] self.elements@[i].time
                <= #[trigger] self.elements@[j].time
        &&& forall|i: int|
            0 <= i < self.elements@.len() ==> #[trigger] self.elements@[i].time + 1
                <= self.current_time + self.delay
    }

    pub fn new(delay: usize) -> (r: Self)
        ensures
            r.delay == delay,
            r.current_time == 0,
            r.elements@.len() == 0,
            r.wf(),
    {
        Self { delay, current_time: 0, elements: VecDeque::with_capacity(delay) }
    }

    /// Queues `element`, due `delay - 1` pops from now; refused when `delay`
    /// elements are already waiting.
    pub fn push(&mut self, element: T) -> (r: Result<(), String>)
        requires
            old(self).current_time + old(self).delay <= u64::MAX,
        ensures
            r is Err <==> old(self).elements@.len() >= old(self).delay,
            r is Err ==> *final(self) == *old(self),
            r is Ok ==> final(self).elements@ == old(self).elements@.push(
                Element { element, time: (old(self).current_time + old(self).delay - 1) as u64 }),
            final(self).delay == old(self).delay,
            final(self).current_time == old(self).current_time,
            old(self).wf() ==> final(self).wf(),
            queue_step(*old(self), Some(element), *final(self), None),
    {
        if self.elements.len() >= self.delay {
            Err("Delayed queue is full when trying to add element".to_owned())
        } else {
            let time = self.current_time + self.delay as u64 - 1;
            self.elements.push_back(Element { element, time });
            Ok(())
        }
    }

    /// Advances the clock by one tick, returning the front element when it is due.
    pub fn pop(&mut self) -> (r: Option<T>)
        requires
            old(self).current_time < u64::MAX,
        ensures
            final(self).current_time == old(self).current_time + 1,
            final(self).delay == old(self).delay,
            (old(self).elements@.len() > 0 && old(self).elements@[0].time <= old(self).current_time) ==> (
                r == Some(old(self).elements@[0].element)
                && final(self).elements@ == old(self).elements@.drop_first()),
            !(old(self).elements@.len() > 0 && old(self).elements@[0].time <= old(self).current_time) ==> (
                r is None && final(self).elements@ == old(self).elements@),
            old(self).wf() ==> final(self).wf(),
            queue_step(*old(self), None, *final(self), r),
    {
        let due = self.elements.len() > 0 && self.elements[0].time <= self.current_time;
        let result = if due {
            match self.elements.pop_front() {
                Some(e) => Some(e.element),
                None => None,
            }
        } else {
            None
        };
        self.current_time = self.current_time + 1;
        result
    }
}

impl<T: Copy> Clone for Delayed<T> {
    fn clone(&self) -> (r: Self)
        ensures
            r.delay == self.delay,
            r.current_time == self.current_time,
            r.elements@ == self.elements@,
    {
        let elements = self.elements.clone();
        assert(elements@ =~= self.elements@);
        Self { delay: self.delay, current_time: self.current_time, elements }
    }
}

/// The elements waiting in `d`, in order.
pub open spec fn waiting<T: Copy>(d: Delayed<T>) -> Seq<T> {
    d.elements@.map_values(|x: Element<T>| x.element)
}

/// One operation on a queue, as `push` (`op` is `Some(e)`) and `pop` (`op` is `None`,
/// giving `out`) state it.
pub open spec fn queue_step<T: Copy>(d0: Delayed<T>, op: Option<T>, d1: Delayed<T>, out: Option<T>) -> bool {
    &&& d1.delay == d0.delay
    &&& match op {
        Some(e) => {
            &&& out is None
            &&& d1.current_time == d0.current_time
            &&& d0.elements@.len() >= d0.delay ==> d1 == d0
            &&& d0.elements@.len() < d0.delay ==> d1.elements@ == d0.elements@.push(
                Element { element: e, time: (d0.current_time + d0.delay - 1) as u64 })
        },
        None => {
            let due = d0.elements@.len() > 0 && d0.elements@[0].time <= d0.current_time;
            &&& d1.current_time == d0.current_time + 1
            &&& due ==> out == Some(d0.elements@[0].element) && d1.elements@ == d0.elements@.drop_first()
            &&& !due ==> out is None && d1.elements@ == d0.elements@
        },
    }
}

/// The elements that the first `k` operations of a run pushed and that the queue took.
pub open spec fn accepted<T: Copy>(ds: Seq<Delayed<T>>, ops: Seq<Option<T>>, k: int) -> Seq<T>
    decreases k,
{
    if k <= 0 {
        seq![]
    } else {
        let earlier = accepted(ds, ops, k - 1);
        match ops[k - 1] {
            Some(e) => if ds[k - 1].elements@.len() < ds[k - 1].delay { earlier.push(e) } else { earlier },
            None => earlier,
        }
    }
}

/// The elements that the first `k` operations of a run handed out.
pub open spec fn delivered<T: Copy>(outs: Seq<Option<T>>, k: int) -> Seq<T>
    decreases k,
{
    if k <= 0 {
        seq![]
    } else {
        let earlier = delivered(outs, k - 1);
        match outs[k - 1] {
            Some(v) => earlier.push(v),
            None => earlier,
        }
    }
}

/// Law: on a queue that starts empty, whatever the pushes and pops, the elements come out
/// in the order they were taken in, and those still waiting are the rest: what was handed
/// out followed by what waits is exactly what was taken.
pub proof fn lemma_first_in_first_out<T: Copy>(ds: Seq<Delayed<T>>, ops: Seq<Option<T>>, outs: Seq<Option<T>>, k: int)
    requires
        ds.len() == ops.len() + 1,
        outs.len() == ops.len(),
        ds[0].elements@.len() == 0,
        forall|i: int| 0 <= i < ops.len() ==> #[trigger] queue_step(ds[i], ops[i], ds[i + 1], outs[i]),
        0 <= k <= ops.len(),
    ensures
        delivered(outs, k) + waiting(ds[k]) == accepted(ds, ops, k),
    decreases k,
{
    if k == 0 {
        assert(waiting(ds[0]) =~= seq![]);
        assert(delivered(outs, 0) + waiting(ds[0]) =~= accepted(ds, ops, 0));
    } else {
        let j = k - 1;
        lemma_first_in_first_out(ds, ops, outs, j);
        assert(queue_step(ds[j], ops[j], ds[j + 1], outs[j]));
        let d0 = ds[j];
        let d1 = ds[j + 1];
        let before = delivered(outs, j);
        match ops[j] {
            Some(e) => {
                if d0.elements@.len() < d0.delay {
                    assert(waiting(d1) =~= waiting(d0).push(e));
                    assert(before + waiting(d1) =~= (before + waiting(d0)).push(e));
                } else {
                    assert(waiting(d1) == waiting(d0));
                }
            },
            None => {
                if d0.elements@.len() > 0 && d0.elements@[0].time <= d0.current_time {
                    assert(waiting(d1) =~= waiting(d0).drop_first());
                    assert(before.push(d0.elements@[0].element) + waiting(d1) =~= before + waiting(d0));
                } else {
                    assert(waiting(d1) =~= waiting(d0));
                }
            },
        }
    }
}

} // verus!
