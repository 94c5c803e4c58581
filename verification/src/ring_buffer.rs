//! A fixed-size ring of values passed from one producer to one consumer.
//!
//! A ring of `N` slots holds at most `N - 1` values: `head` is the slot that the next value
//! goes to, `tail` the slot of the oldest value, and equal indices mean an empty ring.
use core::marker::PhantomData;
use vstd::prelude::*;

verus! {

/// Why a ring operation was refused.
#[derive(Debug)]
pub enum RingBufferError {
    /// A value was put into a full ring.
    Overflow,
    /// A value was asked of an empty ring.
    Underflow,
}

/// The index after `i` in a ring of `n` slots.
pub open spec fn next_index(i: int, n: int) -> int {
    if i + 1 < n {
        i + 1
    } else {
        0
    }
}

/// What a ring holds in memory: its slots and its two indices.
#[verifier::ext_equal]
pub struct RingState<T> {
    pub slots: Seq<Option<T>>,
    pub head: int,
    pub tail: int,
}

impl<T> RingState<T> {
    /// How many values lie between `tail` and `head`.
    pub open spec fn len(self) -> nat {
        if self.head >= self.tail {
            (self.head - self.tail) as nat
        } else {
            (self.head + self.slots.len() - self.tail) as nat
        }
    }

    /// The slot of the `i`-th oldest value.
    pub open spec fn slot_of(self, i: int) -> int {
        if self.tail + i < self.slots.len() {
            self.tail + i
        } else {
            self.tail + i - self.slots.len()
        }
    }

    /// The values in the ring, oldest first.
    pub open spec fn contents(self) -> Seq<T> {
        Seq::new(self.len(), |i: int| self.slots[self.slot_of(i)]->0)
    }

    pub open spec fn wf(self) -> bool {
        if self.slots.len() == 0 {
            self.head == 0 && self.tail == 0
        } else {
            &&& 0 <= self.head < self.slots.len()
            &&& 0 <= self.tail < self.slots.len()
            &&& forall|i: int|
                0 <= i < self.len() ==> (#[trigger] self.slots[self.slot_of(i)]) is Some
        }
    }

    pub open spec fn is_full(self) -> bool {
        next_index(self.head, self.slots.len() as int) == self.tail
    }

    /// The ring after an attempt to put `value`: a full ring keeps what it has.
    pub open spec fn after_put(self, value: T) -> Self {
        if self.is_full() {
            self
        } else {
            RingState {
                slots: self.slots.update(self.head, Some(value)),
                head: next_index(self.head, self.slots.len() as int),
                tail: self.tail,
            }
        }
    }

    /// The ring after an attempt to put each of `values` in turn.
    pub open spec fn after_puts(self, values: Seq<T>) -> Self
        decreases values.len(),
    {
        if values.len() == 0 {
            self
        } else {
            self.after_puts(values.drop_last()).after_put(values.last())
        }
    }

    /// The ring after `count` values have been taken out.
    pub open spec fn after_gets(self, count: nat) -> Self
        decreases count,
    {
        if count == 0 {
            self
        } else {
            self.after_gets((count - 1) as nat).after_read().after_advance()
        }
    }

    /// The ring once the oldest value has been moved out of its slot, before `tail` has moved on.
    pub open spec fn after_read(self) -> Self {
        RingState { slots: self.slots.update(self.tail, None), head: self.head, tail: self.tail }
    }

    /// The ring once `tail` has moved on to the next slot.
    pub open spec fn after_advance(self) -> Self {
        RingState {
            slots: self.slots,
            head: self.head,
            tail: next_index(self.tail, self.slots.len() as int),
        }
    }
}

/// A ring of `N` slots for values of type `T`.
pub struct RingBuffer<T, const N: usize> {
    buf: [Option<T>; N],
    head: usize,
    tail: usize,
    origin: Ghost<int>,
}

/// The role of the one context that puts values into a ring: the ring that it was split from.
pub struct RingProducer<T, const N: usize> {
    origin: Ghost<int>,
    pd: PhantomData<T>,
}

/// The role of the one context that takes values out of a ring: the ring that it was split from.
pub struct RingConsumer<T, const N: usize> {
    origin: Ghost<int>,
    pd: PhantomData<T>,
}

/// A slot that holds nothing.
fn vacant<T>() -> (slot: Option<T>)
    ensures
        slot is None,
{
    None
}

/// Calls `core::array::from_fn`, which makes an array by calling a function once for each index
/// and keeping what it returned there. The function given here returns `None` for every index,
/// so every slot is `None`.
#[verifier::external_body]
fn vacant_slots<T, const N: usize>() -> (slots: [Option<T>; N])
    ensures
        forall|i: int| 0 <= i < N ==> (#[trigger] slots@[i]) is None,
{
    core::array::from_fn(|_index| vacant())
}

impl<T, const N: usize> View for RingBuffer<T, N> {
    type V = Seq<T>;

    /// The values in the ring, oldest first.
    open spec fn view(&self) -> Seq<T> {
        self.state().contents()
    }
}

impl<T, const N: usize> RingBuffer<T, N> {
    /// The slots and indices of this ring.
    pub closed spec fn state(&self) -> RingState<T> {
        RingState { slots: self.buf@, head: self.head as int, tail: self.tail as int }
    }

    /// What a ring shares with the roles that were split from it. It stays for the life of the
    /// ring, and of two rings nothing is known about whether theirs is the same.
    pub closed spec fn origin(&self) -> int {
        self.origin@
    }

    pub open spec fn wf(&self) -> bool {
        &&& self.state().slots.len() == N
        &&& self.state().wf()
    }

    /// An empty ring.
    pub fn new() -> (ring: Self)
        ensures
            ring.wf(),
            ring@ == Seq::<T>::empty(),
    {
        RingBuffer { buf: vacant_slots(), head: 0, tail: 0, origin: Ghost(arbitrary()) }
    }

    /// Hands out the two roles, which act on this ring and no other. The ring itself is left as it
    /// is.
    pub fn split(&mut self) -> (ends: (RingProducer<T, N>, RingConsumer<T, N>))
        ensures
            *final(self) == *old(self),
            ends.0.acts_on(*old(self)),
            ends.1.acts_on(*old(self)),
    {
        (
            RingProducer { origin: self.origin, pd: PhantomData },
            RingConsumer { origin: self.origin, pd: PhantomData },
        )
    }

    /// The slot after `index`.
    fn next(index: usize) -> (next: usize)
        requires
            index < N,
        ensures
            next == next_index(index as int, N as int),
            next < N,
    {
        proof {
            if index + 1 < N {
                vstd::arithmetic::div_mod::lemma_small_mod((index + 1) as nat, N as nat);
            } else {
                vstd::arithmetic::div_mod::lemma_mod_self_0(N as int);
            }
        }
        (index + 1) % N
    }
}

impl<T, const N: usize> RingConsumer<T, N> {
    /// What this role shares with the ring that it was split from.
    pub closed spec fn origin(&self) -> int {
        self.origin@
    }

    /// This role was split from `ring`.
    pub open spec fn acts_on(&self, ring: RingBuffer<T, N>) -> bool {
        self.origin() == ring.origin()
    }

    /// Takes the oldest value out of `ring`.
    ///
    /// The value leaves its slot before `tail` moves, so that a producer that comes in between
    /// still finds the slot taken.
    pub fn get(&mut self, ring: &mut RingBuffer<T, N>) -> (result: Result<T, RingBufferError>)
        requires
            old(ring).wf(),
            old(self).acts_on(*old(ring)),
        ensures
            final(ring).wf(),
            final(ring).origin() == old(ring).origin(),
            *final(self) == *old(self),
            old(ring)@.len() == 0 ==> {
                &&& result matches Err(RingBufferError::Underflow)
                &&& *final(ring) == *old(ring)
            },
            old(ring)@.len() > 0 ==> {
                &&& result matches Ok(value) && value == old(ring)@[0]
                &&& final(ring)@ == old(ring)@.drop_first()
                &&& final(ring).state() == old(ring).state().after_read().after_advance()
            },
    {
        let tail: usize = ring.tail;
        let head: usize = ring.head;
        // underflow condition
        if tail == head {
            return Err(RingBufferError::Underflow);
        }
        proof {
            lemma_get(ring.state());
            assert(ring.state().slot_of(0) == ring.tail);
        }
        let value: T = ring.buf[tail].take().unwrap();
        ring.tail = RingBuffer::<T, N>::next(tail);
        Ok(value)
    }
}

impl<T, const N: usize> RingProducer<T, N> {
    /// What this role shares with the ring that it was split from.
    pub closed spec fn origin(&self) -> int {
        self.origin@
    }

    /// This role was split from `ring`.
    pub open spec fn acts_on(&self, ring: RingBuffer<T, N>) -> bool {
        self.origin() == ring.origin()
    }

    /// Puts `value` into `ring`, behind the values that it holds.
    pub fn put(&mut self, ring: &mut RingBuffer<T, N>, value: T) -> (result: Result<
        (),
        RingBufferError,
    >)
        requires
            old(ring).wf(),
            old(self).acts_on(*old(ring)),
            N > 0,
        ensures
            final(ring).wf(),
            final(ring).origin() == old(ring).origin(),
            *final(self) == *old(self),
            old(ring)@.len() + 1 == N ==> {
                &&& result matches Err(RingBufferError::Overflow)
                &&& *final(ring) == *old(ring)
            },
            old(ring)@.len() + 1 != N ==> {
                &&& result is Ok
                &&& final(ring)@ == old(ring)@.push(value)
            },
            old(ring)@.len() < N,
            final(ring).state() == old(ring).state().after_put(value),
    {
        let head: usize = ring.head;
        let tail: usize = ring.tail;
        let next: usize = RingBuffer::<T, N>::next(head);
        proof {
            lemma_put(ring.state(), value);
        }
        // overflow condition
        if next == tail {
            return Err(RingBufferError::Overflow);
        }
        ring.buf[head] = Some(value);
        ring.head = next;
        Ok(())
    }

    /// Empties `ring`.
    pub fn reset(&mut self, ring: &mut RingBuffer<T, N>)
        requires
            old(ring).wf(),
            old(self).acts_on(*old(ring)),
        ensures
            final(ring).wf(),
            final(ring).origin() == old(ring).origin(),
            *final(self) == *old(self),
            final(ring)@ == Seq::<T>::empty(),
            final(ring).state() == (RingState { slots: old(ring).state().slots, head: 0, tail: 0 }),
    {
        ring.tail = 0;
        ring.head = 0;
    }
}

/// An attempt to put a value is refused exactly when `N - 1` values are held, and otherwise
/// appends the value.
pub proof fn lemma_put<T>(ring: RingState<T>, value: T)
    requires
        ring.wf(),
        ring.slots.len() > 0,
    ensures
        ring.len() < ring.slots.len(),
        ring.is_full() <==> ring.len() + 1 == ring.slots.len(),
        ring.after_put(value).wf(),
        !ring.is_full() ==> ring.after_put(value).contents() == ring.contents().push(value),
{
    if !ring.is_full() {
        let after = ring.after_put(value);
        assert(after.len() == ring.len() + 1);
        assert forall|i: int| 0 <= i < after.len() implies (
        #[trigger] after.slots[after.slot_of(i)]) == (if i < ring.len() {
            ring.slots[ring.slot_of(i)]
        } else {
            Some(value)
        }) by {}
        assert(after.contents() =~= ring.contents().push(value));
    }
}

/// Moving the oldest value out and `tail` on leaves the other values, in their order.
pub proof fn lemma_get<T>(ring: RingState<T>)
    requires
        ring.wf(),
        ring.len() > 0,
    ensures
        ring.slots[ring.tail] == Some(ring.contents()[0]),
        ring.after_read().after_advance().wf(),
        ring.after_read().after_advance().contents() == ring.contents().drop_first(),
{
    let after = ring.after_read().after_advance();
    assert(ring.slot_of(0) == ring.tail);
    assert(ring.slots[ring.slot_of(0)] is Some);
    assert(after.len() == ring.len() - 1);
    assert forall|i: int| 0 <= i < after.len() implies (
    #[trigger] after.slots[after.slot_of(i)]) == ring.slots[ring.slot_of(i + 1)] by {}
    assert(after.contents() =~= ring.contents().drop_first());
}

/// Puts are accepted in their order until `N - 1` values are held, and refused from then on: no
/// value is lost, overwritten or moved by a later one.
pub proof fn lemma_puts<T>(ring: RingState<T>, values: Seq<T>)
    requires
        ring.wf(),
        ring.slots.len() > 0,
    ensures
        ring.after_puts(values).wf(),
        ring.after_puts(values).slots.len() == ring.slots.len(),
        ring.after_puts(values).contents() == ring.contents() + values.take(
            if ring.len() + values.len() < ring.slots.len() {
                values.len() as int
            } else {
                ring.slots.len() - 1 - ring.len()
            },
        ),
    decreases values.len(),
{
    lemma_capacity(ring);
    if values.len() > 0 {
        let before = ring.after_puts(values.drop_last());
        lemma_puts(ring, values.drop_last());
        lemma_put(before, values.last());
        assert(before.contents().len() == before.len());
        if ring.len() + values.len() < ring.slots.len() {
            assert(values.drop_last().take(values.len() - 1) =~= values.drop_last());
            assert((ring.contents() + values.drop_last()).push(values.last()) =~= ring.contents()
                + values.take(values.len() as int));
        } else {
            let room = ring.slots.len() - 1 - ring.len();
            if ring.len() + values.len() == ring.slots.len() {
                assert(values.drop_last().take(values.len() - 1) =~= values.take(room));
            } else {
                assert(values.drop_last().take(room) =~= values.take(room));
            }
            assert(before.len() + 1 == ring.slots.len());
        }
    } else {
        assert(ring.contents() + values.take(0) =~= ring.contents());
    }
}

/// A ring of `N` slots never holds more than `N - 1` values.
pub proof fn lemma_capacity<T>(ring: RingState<T>)
    requires
        ring.wf(),
        ring.slots.len() > 0,
    ensures
        ring.contents().len() <= ring.slots.len() - 1,
{
}

/// First in, first out: where all of `values` fit, the `count`-th value taken out afterwards is
/// the `count`-th of those held before, followed by `values`; and what is left is the rest.
pub proof fn lemma_first_in_first_out<T>(ring: RingState<T>, values: Seq<T>, count: nat)
    requires
        ring.wf(),
        ring.len() + values.len() < ring.slots.len(),
        count <= ring.len() + values.len(),
    ensures
        ring.after_puts(values).after_gets(count).wf(),
        ring.after_puts(values).after_gets(count).contents() == (ring.contents() + values).skip(
            count as int,
        ),
        count < ring.len() + values.len() ==> {
            let left = ring.after_puts(values).after_gets(count);
            left.slots[left.tail] == Some((ring.contents() + values)[count as int])
        },
    decreases count,
{
    let all = ring.contents() + values;
    lemma_puts(ring, values);
    assert(values.take(values.len() as int) =~= values);
    assert(ring.after_puts(values).contents() == all);
    let left = ring.after_puts(values).after_gets(count);
    if count == 0 {
        assert(all.skip(0) =~= all);
    } else {
        let before = ring.after_puts(values).after_gets((count - 1) as nat);
        lemma_first_in_first_out(ring, values, (count - 1) as nat);
        assert(before.contents().len() == before.len());
        lemma_get(before);
        assert(all.skip(count - 1).drop_first() =~= all.skip(count as int));
    }
    if count < all.len() {
        assert(left.contents().len() == left.len());
        lemma_get(left);
        assert(all.skip(count as int)[0] == all[count as int]);
    }
}

/// One use of a ring by one of the two contexts.
pub enum RingUse<T> {
    Put { value: T },
    Get,
}

impl<T> RingState<T> {
    /// The ring after one use: a full ring refuses a value, and an empty ring has none to give.
    pub open spec fn after_use(self, ring_use: RingUse<T>) -> Self {
        match ring_use {
            RingUse::Put { value } => self.after_put(value),
            RingUse::Get => if self.len() == 0 {
                self
            } else {
                self.after_read().after_advance()
            },
        }
    }

    /// The ring after some uses in turn.
    pub open spec fn after_uses(self, uses: Seq<RingUse<T>>) -> Self
        decreases uses.len(),
    {
        if uses.len() == 0 {
            self
        } else {
            self.after_uses(uses.drop_last()).after_use(uses.last())
        }
    }

    /// The values that were put and not refused over some uses in turn.
    pub open spec fn accepted(self, uses: Seq<RingUse<T>>) -> Seq<T>
        decreases uses.len(),
    {
        if uses.len() == 0 {
            Seq::empty()
        } else {
            let before = self.after_uses(uses.drop_last());
            match uses.last() {
                RingUse::Put { value } if !before.is_full() => self.accepted(
                    uses.drop_last(),
                ).push(value),
                _ => self.accepted(uses.drop_last()),
            }
        }
    }

    /// The values that were given out over some uses in turn.
    pub open spec fn taken(self, uses: Seq<RingUse<T>>) -> Seq<T>
        decreases uses.len(),
    {
        if uses.len() == 0 {
            Seq::empty()
        } else {
            let before = self.after_uses(uses.drop_last());
            match uses.last() {
                RingUse::Get if before.len() > 0 => self.taken(uses.drop_last()).push(
                    before.contents()[0],
                ),
                _ => self.taken(uses.drop_last()),
            }
        }
    }
}

/// First in, first out, however puts and gets alternate: the values given out, followed by those
/// still held, are the values held at first, followed by those accepted since, in their order.
pub proof fn lemma_interleaved_first_in_first_out<T>(ring: RingState<T>, uses: Seq<RingUse<T>>)
    requires
        ring.wf(),
        ring.slots.len() > 0,
    ensures
        ring.after_uses(uses).wf(),
        ring.after_uses(uses).slots.len() == ring.slots.len(),
        ring.taken(uses) + ring.after_uses(uses).contents() == ring.contents() + ring.accepted(
            uses,
        ),
    decreases uses.len(),
{
    if uses.len() == 0 {
        assert(ring.taken(uses) + ring.contents() =~= ring.contents() + ring.accepted(uses));
    } else {
        let earlier = uses.drop_last();
        let before = ring.after_uses(earlier);
        lemma_interleaved_first_in_first_out(ring, earlier);
        assert(before.contents().len() == before.len());
        match uses.last() {
            RingUse::Put { value } => {
                lemma_put(before, value);
                if !before.is_full() {
                    assert(ring.taken(uses) + before.contents().push(value) =~= (ring.taken(
                        earlier,
                    ) + before.contents()).push(value));
                    assert(ring.contents() + ring.accepted(uses) =~= (ring.contents()
                        + ring.accepted(earlier)).push(value));
                }
            },
            RingUse::Get => {
                if before.len() > 0 {
                    lemma_get(before);
                    assert(ring.taken(uses) + before.contents().drop_first() =~= ring.taken(
                        earlier,
                    ) + before.contents());
                }
            },
        }
    }
}

/// A producer that interrupts a `get` after the value has left its slot and before `tail` has
/// moved does no harm, however many values it puts: it never writes to the slot being emptied,
/// the value read is the oldest of the ring either way, and once `tail` has moved the ring holds
/// what it would hold had all the puts come first.
pub proof fn lemma_puts_during_get<T>(ring: RingState<T>, values: Seq<T>)
    requires
        ring.wf(),
        ring.len() > 0,
    ensures
        ring.after_read().after_puts(values).tail == ring.tail,
        ring.after_read().after_puts(values).slots[ring.tail] is None,
        ring.slots[ring.tail] == Some(ring.after_puts(values).contents()[0]),
        ring.after_read().after_puts(values).after_advance().wf(),
        ring.after_read().after_puts(values).after_advance().contents() == ring.after_puts(
            values,
        ).contents().drop_first(),
{
    lemma_read_commutes(ring, values);
    lemma_puts(ring, values);
    assert(ring.after_puts(values).contents().len() == ring.after_puts(values).len());
    lemma_get(ring);
    lemma_get(ring.after_puts(values));
}

/// Moving the oldest value out of its slot and putting values can be done in either order.
proof fn lemma_read_commutes<T>(ring: RingState<T>, values: Seq<T>)
    requires
        ring.wf(),
        ring.len() > 0,
    ensures
        ring.after_read().after_puts(values) == ring.after_puts(values).after_read(),
        ring.after_puts(values).tail == ring.tail,
        ring.after_puts(values).slots[ring.tail] == ring.slots[ring.tail],
        ring.after_puts(values).head != ring.tail,
        0 <= ring.after_puts(values).head < ring.slots.len(),
        ring.after_puts(values).slots.len() == ring.slots.len(),
    decreases values.len(),
{
    if values.len() > 0 {
        lemma_read_commutes(ring, values.drop_last());
        let before = ring.after_puts(values.drop_last());
        assert(before.after_read().after_put(values.last()) =~= before.after_put(
            values.last(),
        ).after_read());
    }
}

} // verus!
