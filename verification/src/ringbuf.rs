//! A fixed-capacity ring buffer with `head` and `tail` cursors.
//!
//! `push` stores the new element in the slot under `head` and advances
//! `tail`; `pop` takes the element under `head`, empties that slot and
//! advances `head`.
use vstd::prelude::*;

verus! {

/// Number of slots of a buffer.
pub const SIZE: usize = 128;

/// A ring buffer of `SIZE` optional slots.
pub struct Buf<T> {
    pub elems: [Option<T>; SIZE],
    pub head: usize,
    pub tail: usize,
}

/// The mathematical state of a `Buf`: its slots and its two cursors.
#[verifier::ext_equal]
pub struct BufModel<T> {
    pub slots: Seq<Option<T>>,
    pub head: int,
    pub tail: int,
}

/// Number of occupied slots of `s`.
pub open spec fn count_occupied<T>(s: Seq<Option<T>>) -> nat
    decreases s.len(),
{
    if s.len() == 0 {
        0
    } else {
        count_occupied(s.drop_last()) + if s.last() is Some { 1nat } else { 0nat }
    }
}

/// The cursor that follows `i` around the ring.
pub open spec fn next_index(i: int) -> int {
    (i + 1) % (SIZE as int)
}

impl<T> BufModel<T> {
    /// The cursors point at slots and there are `SIZE` slots.
    pub open spec fn wf(self) -> bool {
        &&& self.slots.len() == SIZE
        &&& 0 <= self.head < SIZE
        &&& 0 <= self.tail < SIZE
    }

    /// The state of a freshly made buffer.
    pub open spec fn initial() -> Self {
        BufModel { slots: Seq::new(SIZE as nat, |i: int| None), head: 0, tail: 0 }
    }

    pub open spec fn is_empty(self) -> bool {
        self.head == self.tail
    }

    pub open spec fn is_full(self) -> bool {
        next_index(self.tail) == self.head
    }

    /// Number of positions from `head` up to `tail`.
    pub open spec fn len(self) -> int {
        (self.tail - self.head + SIZE as int) % (SIZE as int)
    }

    /// `pop` succeeds exactly when the slot under `head` is occupied.
    pub open spec fn can_pop(self) -> bool {
        self.slots[self.head] is Some
    }

    /// The element that `pop` returns.
    pub open spec fn front(self) -> T {
        self.slots[self.head]->Some_0
    }

    /// The state after `push(x)`.
    pub open spec fn pushed(self, x: T) -> Self {
        BufModel {
            slots: self.slots.update(self.head, Some(x)),
            head: self.head,
            tail: next_index(self.tail),
        }
    }

    /// The state after `pop()`.
    pub open spec fn popped(self) -> Self {
        BufModel {
            slots: self.slots.update(self.head, None),
            head: next_index(self.head),
            tail: self.tail,
        }
    }

    /// Number of occupied slots.
    pub open spec fn occupied_count(self) -> nat {
        count_occupied(self.slots)
    }

    /// Every slot but the one under `head` is unoccupied.
    pub open spec fn only_head_occupied(self) -> bool {
        forall|i: int| 0 <= i < self.slots.len() && i != self.head ==> #[trigger] self.slots[i] is None
    }
}

impl<T> View for Buf<T> {
    type V = BufModel<T>;

    open spec fn view(&self) -> BufModel<T> {
        BufModel { slots: self.elems@, head: self.head as int, tail: self.tail as int }
    }
}

impl<T: Copy> Buf<T> {
    /// A buffer with every slot unoccupied and both cursors at zero.
    pub fn new() -> (b: Self)
        ensures
            b@ == BufModel::<T>::initial(),
    {
        let b = Buf { elems: [None; SIZE], head: 0, tail: 0 };
        assert(b@.slots =~= BufModel::<T>::initial().slots);
        b
    }

    /// Whether the cursors meet.
    pub fn empty(&self) -> (r: bool)
        ensures
            r == self@.is_empty(),
    {
        return self.tail == self.head;
    }

    /// Whether advancing `tail` would meet `head`.
    pub fn full(&self) -> (r: bool)
        requires
            self.tail < usize::MAX,
        ensures
            r == self@.is_full(),
    {
        let next_tail = (self.tail + 1) % SIZE;
        return next_tail == self.head;
    }

    /// Takes the element under `head`, empties its slot and advances `head`.
    pub fn pop(&mut self) -> (elem: T)
        requires
            old(self).head < SIZE,
            old(self)@.can_pop(),
        ensures
            elem == old(self)@.front(),
            final(self)@ == old(self)@.popped(),
    {
        let elem = self.elems[self.head].unwrap();
        self.elems[self.head] = None;

        self.head = (self.head + 1) % SIZE;

        return elem;
    }

    /// Stores `elem` in the slot under `head` and advances `tail`.
    pub fn push(&mut self, elem: T)
        requires
            old(self).head < SIZE,
            old(self).tail < usize::MAX,
            !old(self)@.is_full(),
        ensures
            final(self)@ == old(self)@.pushed(elem),
    {
        let next_tail = (self.tail + 1) % SIZE;
        self.elems[self.head] = Some(elem);
        self.tail = next_tail;
    }
}

/// A `pop` right after a `push` into a buffer that is not full returns the
/// pushed element and succeeds.
pub proof fn lemma_pop_after_push<T>(m: BufModel<T>, x: T)
    requires
        m.wf(),
        !m.is_full(),
    ensures
        m.pushed(x).wf(),
        m.pushed(x).can_pop(),
        m.pushed(x).front() == x,
{
}

/// The number of positions between the cursors is below `SIZE`; it is zero
/// exactly when the buffer is empty and `SIZE - 1` exactly when it is full.
pub proof fn lemma_len_bounds<T>(m: BufModel<T>)
    requires
        m.wf(),
    ensures
        0 <= m.len() < SIZE,
        m.is_empty() <==> m.len() == 0,
        m.is_full() <==> m.len() == SIZE - 1,
{
}

/// `push` into a buffer that is not full keeps it well formed and adds one
/// position; `pop` from a non-empty buffer keeps it well formed and removes one.
pub proof fn lemma_len_push_pop<T>(m: BufModel<T>, x: T)
    requires
        m.wf(),
    ensures
        !m.is_full() ==> m.pushed(x).wf() && m.pushed(x).len() == m.len() + 1,
        !m.is_empty() ==> m.popped().wf() && m.popped().len() == m.len() - 1,
{
}

/// A successful `pop` empties one occupied slot.
pub proof fn lemma_pop_occupied<T>(m: BufModel<T>)
    requires
        0 <= m.head < m.slots.len(),
        m.can_pop(),
    ensures
        m.popped().occupied_count() + 1 == m.occupied_count(),
{
    lemma_count_occupied_clear(m.slots, m.head);
}

proof fn lemma_count_occupied_clear<T>(s: Seq<Option<T>>, i: int)
    requires
        0 <= i < s.len(),
        s[i] is Some,
    ensures
        count_occupied(s.update(i, None)) + 1 == count_occupied(s),
    decreases s.len(),
{
    let u = s.update(i, None);
    if i == s.len() - 1 {
        assert(u.drop_last() =~= s.drop_last());
    } else {
        lemma_count_occupied_clear(s.drop_last(), i);
        assert(u.drop_last() =~= s.drop_last().update(i, None));
    }
}

/// A fresh buffer is well formed and empty, and in every state reached from
/// it by `push` and `pop` at most the slot under `head` is occupied.
pub proof fn lemma_only_head_occupied<T>(m: BufModel<T>, x: T)
    ensures
        BufModel::<T>::initial().wf(),
        BufModel::<T>::initial().is_empty(),
        BufModel::<T>::initial().only_head_occupied(),
        m.wf() && m.only_head_occupied() ==> m.pushed(x).only_head_occupied(),
        m.wf() && m.only_head_occupied() ==> m.popped().only_head_occupied(),
{
}

} // verus!
