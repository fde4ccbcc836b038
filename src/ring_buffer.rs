use vstd::prelude::*;

verus! {

/// `i` taken modulo `N`, for `0 <= i < 2 * N`.
pub open spec fn wrap<const N: usize>(i: int) -> int {
    if i < N {
        i
    } else {
        i - N
    }
}

/// The index after `i` in a ring of `N` slots.
fn next_index<const N: usize>(i: usize) -> (r: usize)
    requires
        i < N,
    ensures
        r == wrap::<N>(i + 1),
{
    if i + 1 == N {
        0
    } else {
        i + 1
    }
}

/// Outcome of [`RingBuffer::push_back`].
#[derive(Clone, Copy, PartialEq, Eq, Debug, Structural)]
pub enum Status {
    Success,
    BufferFull,
}

/// A fixed-capacity FIFO queue over `N` slots.
///
/// The elements live in the slots `front + 1, ..., back - 1` (modulo `N`):
/// `front == back` means full and `front + 1 == back` means empty, so one
/// slot always stays unused and at most `N - 1` elements are held.
pub struct RingBuffer<T, const N: usize> {
    front: usize,
    back: usize,
    buffer: Vec<Option<T>>,
}

impl<T, const N: usize> RingBuffer<T, N> {
    /// Number of elements the buffer can hold at once.
    pub open spec fn capacity() -> nat {
        (N - 1) as nat
    }

    /// Slot that holds the `i`-th element, counted from the front.
    pub closed spec fn slot(self, i: int) -> int {
        wrap::<N>(self.front + 1 + i)
    }

    pub closed spec fn spec_len(self) -> nat {
        if self.back > self.front {
            (self.back - self.front - 1) as nat
        } else {
            (self.back + N - self.front - 1) as nat
        }
    }

    pub closed spec fn wf(self) -> bool {
        &&& N >= 2
        &&& self.buffer@.len() == N
        &&& self.front < N
        &&& self.back < N
        &&& forall|i: int| 0 <= i < self.spec_len() ==> (#[trigger] self.buffer@[self.slot(i)]).is_some()
    }

    /// The elements held, front first.
    pub closed spec fn view(self) -> Seq<T> {
        Seq::new(self.spec_len(), |i: int| self.buffer@[self.slot(i)].unwrap())
    }

    pub fn new() -> (r: Self)
        requires
            N >= 2,
        ensures
            r.wf(),
            r@ == Seq::<T>::empty(),
    {
        let mut buffer: Vec<Option<T>> = Vec::new();
        let mut i: usize = 0;
        while i < N
            invariant
                i <= N,
                buffer@.len() == i,
            decreases N - i,
        {
            buffer.push(None);
            i = i + 1;
        }
        let r = RingBuffer { front: 0, back: 1, buffer };
        assert(r.spec_len() == 0);
        assert(r@ =~= Seq::<T>::empty());
        r
    }

    /// Appends `value` at the back; on a full buffer nothing changes and
    /// `value` is dropped.
    pub fn push_back(&mut self, value: T) -> (r: Status)
        requires
            old(self).wf(),
        ensures
            final(self).wf(),
            final(self)@.len() <= Self::capacity(),
            old(self)@.len() < Self::capacity() ==> r == Status::Success && final(self)@ == old(
                self,
            )@.push(value),
            old(self)@.len() >= Self::capacity() ==> r == Status::BufferFull && final(self)@
                == old(self)@,
    {
        if self.is_full() {
            return Status::BufferFull;
        }
        let ghost old_view = self@;
        let ghost old_len = self.spec_len();
        let back = self.back;
        self.buffer.set(back, Some(value));
        self.back = next_index::<N>(self.back);
        assert(self.spec_len() == old_len + 1);
        assert(self.slot(old_len as int) == back as int);
        assert forall|i: int| 0 <= i < old_len implies self.slot(i) != back as int by {}
        assert forall|i: int| 0 <= i < self.spec_len() implies (#[trigger] self.buffer@[self.slot(
            i,
        )]).is_some() by {
            if i < old_len {
                assert(old(self).buffer@[old(self).slot(i)].is_some());
                assert(self.slot(i) == old(self).slot(i));
            }
        }
        assert(self@ =~= old_view.push(value));
        Status::Success
    }

    /// Number of elements held.
    pub fn size(&self) -> (r: usize)
        requires
            self.wf(),
        ensures
            r == self@.len(),
            r <= Self::capacity(),
    {
        if self.back > self.front {
            self.back - self.front - 1
        } else {
            N - self.front - 1 + self.back
        }
    }

    /// Removes and returns the front element, or `None` when empty.
    pub fn pop_front(&mut self) -> (r: Option<T>)
        requires
            old(self).wf(),
        ensures
            final(self).wf(),
            final(self)@.len() <= Self::capacity(),
            old(self)@.len() == 0 ==> r is None && final(self)@ == old(self)@,
            old(self)@.len() > 0 ==> r == Some(old(self)@[0]) && final(self)@ == old(
                self,
            )@.drop_first(),
    {
        if self.is_empty() {
            return None;
        }
        let ghost old_view = self@;
        let ghost old_len = self.spec_len();
        self.front = next_index::<N>(self.front);
        let front = self.front;
        let mut slot: Option<T> = None;
        std::mem::swap(&mut slot, &mut self.buffer[front]);
        assert(self.spec_len() == old_len - 1);
        assert forall|i: int| 0 <= i < old_len - 1 implies self.slot(i) != front as int by {}
        assert forall|i: int| 0 <= i < self.spec_len() implies (#[trigger] self.buffer@[self.slot(
            i,
        )]).is_some() by {
            assert(self.slot(i) == old(self).slot(i + 1));
            assert(old(self).buffer@[old(self).slot(i + 1)].is_some());
        }
        assert(self@ =~= old_view.drop_first());
        slot
    }

    fn is_empty(&self) -> (r: bool)
        requires
            self.wf(),
        ensures
            r == (self@.len() == 0),
    {
        next_index::<N>(self.front) == self.back
    }

    fn is_full(&self) -> (r: bool)
        requires
            self.wf(),
        ensures
            r == (self@.len() == Self::capacity()),
    {
        self.front == self.back
    }
}

/// One call on a ring buffer, for stating laws over call sequences.
pub enum Operation<T> {
    PushBack(T),
    PopFront,
}

/// What a sequence of calls leaves behind, as the contracts of
/// [`RingBuffer::push_back`] and [`RingBuffer::pop_front`] describe each call:
/// the elements still held, the elements popped (in order), and the elements
/// accepted by `push_back` (in order).
pub open spec fn replay<T>(capacity: nat, ops: Seq<Operation<T>>) -> (Seq<T>, Seq<T>, Seq<T>)
    decreases ops.len(),
{
    if ops.len() == 0 {
        (Seq::empty(), Seq::empty(), Seq::empty())
    } else {
        let (held, popped, pushed) = replay(capacity, ops.drop_last());
        match ops.last() {
            Operation::PushBack(v) => if held.len() < capacity {
                (held.push(v), popped, pushed.push(v))
            } else {
                (held, popped, pushed)
            },
            Operation::PopFront => if held.len() > 0 {
                (held.drop_first(), popped.push(held[0]), pushed)
            } else {
                (held, popped, pushed)
            },
        }
    }
}

/// FIFO law: after any sequence of calls on a buffer that starts empty, the
/// popped elements followed by the held ones are exactly the accepted
/// elements in the order they were pushed, and the size equals the number of
/// successful pushes minus the number of successful pops.
pub proof fn lemma_fifo_order<T>(capacity: nat, ops: Seq<Operation<T>>)
    ensures
        ({
            let (held, popped, pushed) = replay(capacity, ops);
            &&& popped + held == pushed
            &&& held.len() == pushed.len() - popped.len()
            &&& held.len() <= capacity
        }),
    decreases ops.len(),
{
    if ops.len() > 0 {
        lemma_fifo_order(capacity, ops.drop_last());
        let (held, popped, pushed) = replay(capacity, ops.drop_last());
        match ops.last() {
            Operation::PushBack(v) => {
                assert(popped + held.push(v) =~= (popped + held).push(v));
            },
            Operation::PopFront => {
                if held.len() > 0 {
                    assert(popped.push(held[0]) + held.drop_first() =~= popped + held);
                }
            },
        }
    } else {
        assert(Seq::<T>::empty() + Seq::<T>::empty() =~= Seq::<T>::empty());
    }
}

} // verus!
