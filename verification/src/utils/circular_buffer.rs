//! Fixed-capacity circular buffer for windowed calculations.
//!
//! A circular buffer keeps the most recent `capacity` values pushed into it and
//! overwrites the oldest one when it is full. Logically it is a sliding window:
//! the sequence of the last `min(n, capacity)` values pushed since it was
//! created or cleared, oldest first.

use core::cmp::Ordering;
use vstd::prelude::*;
use vstd::std_specs::cmp::PartialOrdSpec;
use vstd::std_specs::ops::AddSpec;

verus! {

/// The window that results from pushing `value` into `window` when at most
/// `capacity` values are kept: the value is appended, and when the window was
/// already full its oldest value is dropped.
pub open spec fn window_push<T>(window: Seq<T>, value: T, capacity: nat) -> Seq<T> {
    if window.len() < capacity {
        window.push(value)
    } else {
        window.drop_first().push(value)
    }
}

/// The last `min(history.len(), capacity)` values of `history`: what a buffer of
/// the given capacity holds after the values of `history` were pushed, in order,
/// into an empty buffer.
pub open spec fn sliding_window<T>(history: Seq<T>, capacity: nat) -> Seq<T> {
    if history.len() <= capacity {
        history
    } else {
        history.subrange(history.len() - capacity, history.len() as int)
    }
}

/// Fixed-size circular buffer.
///
/// Its view is the sequence of stored values, oldest first. Its length never
/// exceeds its capacity, which is fixed at construction and is positive.
#[derive(Debug)]
pub struct CircularBuffer<T> {
    data: Vec<T>,
    capacity: usize,
    head: usize,
    size: usize,
}

impl<T> CircularBuffer<T> {
    /// The storage has one slot per unit of capacity; `head` is the slot the next
    /// value goes to, and `size` values precede it (cyclically).
    #[verifier::type_invariant]
    closed spec fn well_formed(self) -> bool {
        &&& self.capacity > 0
        &&& self.data@.len() == self.capacity
        &&& self.head < self.capacity
        &&& self.size <= self.capacity
    }

    /// Storage slot of the value with logical index `i` (0 = oldest), that is
    /// `(head + capacity - size + i) mod capacity` for `0 <= i < size`.
    closed spec fn slot(self, i: int) -> int {
        let s = self.head + self.capacity - self.size + i;
        if s < self.capacity {
            s
        } else {
            s - self.capacity
        }
    }

    /// Physical slot of the value with logical index `index`, computed without
    /// intermediate values that could exceed the capacity.
    fn slot_of(&self, index: usize) -> (s: usize)
        requires
            index < self.size,
        ensures
            s == self.slot(index as int),
            s < self.capacity,
    {
        proof {
            use_type_invariant(self);
        }
        let start = if self.head >= self.size {
            self.head - self.size
        } else {
            self.head + (self.capacity - self.size)
        };
        let room = self.capacity - start;
        if index < room {
            start + index
        } else {
            index - room
        }
    }

    /// The maximum number of values the buffer holds.
    pub closed spec fn spec_capacity(self) -> nat {
        self.capacity as nat
    }
}

impl<T> View for CircularBuffer<T> {
    type V = Seq<T>;

    /// The stored values, oldest first.
    closed spec fn view(&self) -> Seq<T> {
        Seq::new(self.size as nat, |i: int| self.data@[self.slot(i)])
    }
}

impl<T: Copy + Default> CircularBuffer<T> {
    /// Creates an empty buffer that holds at most `capacity` values.
    ///
    /// A capacity of zero is refused (the buffer could hold nothing).
    pub fn new(capacity: usize) -> (buffer: Self)
        requires
            capacity > 0,
        ensures
            buffer@ == Seq::<T>::empty(),
            buffer.spec_capacity() == capacity,
    {
        let mut data: Vec<T> = Vec::new();
        let mut i: usize = 0;
        while i < capacity
            invariant
                data@.len() == i,
                i <= capacity,
            decreases capacity - i,
        {
            data.push(T::default());
            i = i + 1;
        }
        let buffer = CircularBuffer { data, capacity, head: 0, size: 0 };
        assert(buffer@ =~= Seq::<T>::empty());
        buffer
    }

    /// Adds a value as the newest one; when the buffer is full the oldest value is
    /// overwritten.
    pub fn push(&mut self, value: T)
        ensures
            final(self).spec_capacity() == old(self).spec_capacity(),
            final(self)@ == window_push(old(self)@, value, old(self).spec_capacity()),
    {
        proof {
            use_type_invariant(&*self);
        }
        let ghost before = *self;
        let h = self.head;
        self.data[h] = value;
        if h + 1 == self.capacity {
            self.head = 0;
        } else {
            self.head = h + 1;
        }
        if self.size < self.capacity {
            self.size = self.size + 1;
        }
        proof {
            let expected = window_push(before@, value, before.capacity as nat);
            assert forall|i: int| 0 <= i < self.size implies #[trigger] self@[i] == expected[i] by {
                if before.size < before.capacity {
                    if i < before.size {
                        assert(self.slot(i) == before.slot(i));
                        assert(before.slot(i) != h);
                    } else {
                        assert(self.slot(i) == h);
                    }
                } else {
                    if i + 1 < before.size {
                        assert(self.slot(i) == before.slot(i + 1));
                        assert(before.slot(i + 1) != h);
                    } else {
                        assert(self.slot(i) == h);
                    }
                }
            }
            assert(self@ =~= expected);
        }
    }

    /// The value at logical position `index` (0 is the oldest), or `None` when
    /// `index` is not below the number of stored values.
    pub fn get(&self, index: usize) -> (r: Option<T>)
        ensures
            r == (if index < self@.len() {
                Some(self@[index as int])
            } else {
                None
            }),
    {
        proof {
            use_type_invariant(self);
        }
        if index >= self.size {
            return None;
        }
        let s = self.slot_of(index);
        Some(self.data[s])
    }

    /// The most recently pushed value, or `None` when the buffer is empty.
    pub fn last(&self) -> (r: Option<T>)
        ensures
            r == (if self@.len() == 0 {
                None
            } else {
                Some(self@.last())
            }),
    {
        proof {
            use_type_invariant(self);
        }
        if self.size == 0 {
            return None;
        }
        let index = if self.head == 0 {
            self.capacity - 1
        } else {
            self.head - 1
        };
        assert(index == self.slot(self.size - 1));
        Some(self.data[index])
    }

    /// The oldest value in the buffer, or `None` when the buffer is empty.
    pub fn first(&self) -> (r: Option<T>)
        ensures
            r == (if self@.len() == 0 {
                None
            } else {
                Some(self@[0])
            }),
    {
        if self.size == 0 {
            return None;
        }
        self.get(0)
    }

    /// Whether the buffer holds as many values as its capacity.
    pub fn is_full(&self) -> (full: bool)
        ensures
            full <==> self@.len() == self.spec_capacity(),
    {
        self.size == self.capacity
    }

    /// Whether the buffer holds no value.
    pub fn is_empty(&self) -> (empty: bool)
        ensures
            empty <==> self@.len() == 0,
    {
        self.size == 0
    }

    /// The number of stored values; it never exceeds the capacity.
    pub fn len(&self) -> (n: usize)
        ensures
            n == self@.len(),
            n <= self.spec_capacity(),
    {
        proof {
            use_type_invariant(self);
        }
        self.size
    }

    /// The maximum number of values the buffer holds; it is positive.
    pub fn capacity(&self) -> (c: usize)
        ensures
            c == self.spec_capacity(),
            c > 0,
    {
        proof {
            use_type_invariant(self);
        }
        self.capacity
    }

    /// Removes every value; the capacity is kept.
    pub fn clear(&mut self)
        ensures
            final(self)@ == Seq::<T>::empty(),
            final(self).spec_capacity() == old(self).spec_capacity(),
    {
        proof {
            use_type_invariant(&*self);
        }
        self.head = 0;
        self.size = 0;
        assert(self@ =~= Seq::<T>::empty());
    }

    /// An iterator over the stored values, oldest to newest.
    pub fn iter(&self) -> (it: CircularBufferIter<'_, T>)
        ensures
            it.remaining() == self@,
    {
        let it = CircularBufferIter { buffer: self, index: 0 };
        assert(it.remaining() =~= self@);
        it
    }

    /// The stored values in chronological order (oldest first).
    pub fn as_slice(&self) -> (values: Vec<T>)
        ensures
            values@ == self@,
    {
        proof {
            use_type_invariant(self);
        }
        let mut values: Vec<T> = Vec::new();
        let mut i: usize = 0;
        while i < self.size
            invariant
                i <= self.size,
                self.size <= self.capacity,
                self.data@.len() == self.capacity,
                values@ =~= self@.subrange(0, i as int),
            decreases self.size - i,
        {
            let s = self.slot_of(i);
            values.push(self.data[s]);
            i = i + 1;
        }
        values
    }
}

/// The first `n` values of `values`.
pub open spec fn leading<T>(values: Seq<T>, n: usize) -> Seq<T> {
    values.take(n as int)
}

/// Left fold of `+` (as specified for `T`) over `values`, starting from `init`:
/// `init + values[0] + values[1] + ...`.
pub open spec fn add_fold<T: core::ops::Add<Output = T>>(init: T, values: Seq<T>) -> T
    decreases values.len(),
{
    if values.len() == 0 {
        init
    } else {
        add_fold(init, values.drop_last()).add_spec(values.last())
    }
}

/// Every addition made when folding `+` over `values` from `init` is defined
/// (for integer types: does not overflow). Where `+` on `T` has no specification,
/// every addition on `T` must be defined.
pub open spec fn add_fold_defined<T: core::ops::Add<Output = T>>(init: T, values: Seq<T>) -> bool {
    if T::obeys_add_spec() {
        forall|i: int|
            0 <= i < values.len() ==> #[trigger] add_fold(init, values.take(i)).add_req(values[i])
    } else {
        forall|a: T, b: T| #[trigger] a.add_req(b)
    }
}

/// The value that `Iterator::max_by` selects from a non-empty `values` when two
/// values are compared with `partial_cmp`, incomparable values counting as
/// equal: scanning from the oldest, a value replaces the current choice unless
/// the current choice compares greater. Among equal maxima the last one wins.
pub open spec fn max_fold<T: PartialOrd>(values: Seq<T>) -> T
    decreases values.len(),
{
    if values.len() <= 1 {
        values[0]
    } else {
        let best = max_fold(values.drop_last());
        if best.partial_cmp_spec(&values.last()) == Some(Ordering::Greater) {
            best
        } else {
            values.last()
        }
    }
}

/// The value that `Iterator::min_by` selects from a non-empty `values` under the
/// same comparison: a value replaces the current choice only when the current
/// choice compares greater. Among equal minima the first one wins.
pub open spec fn min_fold<T: PartialOrd>(values: Seq<T>) -> T
    decreases values.len(),
{
    if values.len() <= 1 {
        values[0]
    } else {
        let best = min_fold(values.drop_last());
        if best.partial_cmp_spec(&values.last()) == Some(Ordering::Greater) {
            values.last()
        } else {
            best
        }
    }
}

impl<T> CircularBuffer<T> where T: Copy + Default + core::ops::Add<Output = T> + PartialOrd {
    /// The sum of the stored values, `T::default() + v0 + v1 + ...` from the
    /// oldest; for numbers, the default is zero and an empty buffer sums to zero.
    pub fn sum(&self) -> (total: T)
        requires
            forall|d: T| call_ensures(T::default, (), d) ==> add_fold_defined(d, self@),
        ensures
            exists|d: T|
                #[trigger] call_ensures(T::default, (), d) && (T::obeys_add_spec() ==> total == add_fold(
                    d,
                    self@,
                )),
    {
        proof {
            use_type_invariant(self);
        }
        let init = T::default();
        let mut acc = init;
        let mut i: usize = 0;
        while i < self.size
            invariant
                i <= self.size,
                self.size <= self.capacity,
                self.data@.len() == self.capacity,
                self@.len() == self.size,
                add_fold_defined(init, self@),
                T::obeys_add_spec() ==> acc == add_fold(init, leading(self@, i)),
            decreases self.size - i,
        {
            let s = self.slot_of(i);
            let x = self.data[s];
            proof {
                if T::obeys_add_spec() {
                    assert(add_fold(init, self@.take(i as int)).add_req(self@[i as int]));
                    assert(leading(self@, (i + 1) as usize).drop_last() =~= leading(self@, i));
                }
            }
            acc = acc + x;
            i = i + 1;
        }
        proof {
            assert(leading(self@, i) =~= self@);
            assert(call_ensures(T::default, (), init) && (T::obeys_add_spec() ==> acc == add_fold(
                init,
                self@,
            )));
        }
        acc
    }

    /// The largest stored value, chosen as `Iterator::max_by` does with
    /// `partial_cmp` (incomparable values count as equal); `None` when empty.
    pub fn max(&self) -> (r: Option<T>)
        ensures
            r is Some <==> self@.len() > 0,
            T::obeys_partial_cmp_spec() && self@.len() > 0 ==> r == Some(max_fold(self@)),
    {
        proof {
            use_type_invariant(self);
        }
        if self.size == 0 {
            return None;
        }
        let mut best = self.data[self.slot_of(0)];
        let mut i: usize = 1;
        proof {
            assert(leading(self@, 1usize) =~= seq![self@[0]]);
        }
        while i < self.size
            invariant
                1 <= i <= self.size,
                self.size <= self.capacity,
                self.data@.len() == self.capacity,
                self@.len() == self.size,
                T::obeys_partial_cmp_spec() ==> best == max_fold(leading(self@, i)),
            decreases self.size - i,
        {
            let x = self.data[self.slot_of(i)];
            let ghost prev = i;
            match best.partial_cmp(&x) {
                Some(Ordering::Greater) => {},
                _ => {
                    best = x;
                },
            }
            i = i + 1;
            proof {
                assert(leading(self@, i).drop_last() =~= leading(self@, prev));
            }
        }
        proof {
            assert(leading(self@, i) =~= self@);
        }
        Some(best)
    }

    /// The smallest stored value, chosen as `Iterator::min_by` does with
    /// `partial_cmp` (incomparable values count as equal); `None` when empty.
    pub fn min(&self) -> (r: Option<T>)
        ensures
            r is Some <==> self@.len() > 0,
            T::obeys_partial_cmp_spec() && self@.len() > 0 ==> r == Some(min_fold(self@)),
    {
        proof {
            use_type_invariant(self);
        }
        if self.size == 0 {
            return None;
        }
        let mut best = self.data[self.slot_of(0)];
        let mut i: usize = 1;
        proof {
            assert(leading(self@, 1usize) =~= seq![self@[0]]);
        }
        while i < self.size
            invariant
                1 <= i <= self.size,
                self.size <= self.capacity,
                self.data@.len() == self.capacity,
                self@.len() == self.size,
                T::obeys_partial_cmp_spec() ==> best == min_fold(leading(self@, i)),
            decreases self.size - i,
        {
            let x = self.data[self.slot_of(i)];
            let ghost prev = i;
            match best.partial_cmp(&x) {
                Some(Ordering::Greater) => {
                    best = x;
                },
                _ => {},
            }
            i = i + 1;
            proof {
                assert(leading(self@, i).drop_last() =~= leading(self@, prev));
            }
        }
        proof {
            assert(leading(self@, i) =~= self@);
        }
        Some(best)
    }
}

/// Iterator over the values of a circular buffer, oldest to newest.
#[derive(Debug)]
pub struct CircularBufferIter<'a, T> {
    buffer: &'a CircularBuffer<T>,
    index: usize,
}

impl<'a, T> CircularBufferIter<'a, T> {
    /// The iterator never points past the end of the buffer.
    #[verifier::type_invariant]
    closed spec fn within_bounds(self) -> bool {
        self.index <= self.buffer@.len()
    }

    /// The values that are still to be yielded, in order.
    pub closed spec fn remaining(self) -> Seq<T> {
        self.buffer@.subrange(self.index as int, self.buffer@.len() as int)
    }
}

impl<'a, T: Copy + Default> CircularBufferIter<'a, T> {
    /// The next value, oldest first, or `None` once every value was yielded.
    pub fn next(&mut self) -> (r: Option<&'a T>)
        ensures
            old(self).remaining().len() == 0 ==> r is None && final(self).remaining()
                == old(self).remaining(),
            old(self).remaining().len() > 0 ==> (r matches Some(v) && *v == old(
                self,
            ).remaining()[0] && final(self).remaining() == old(self).remaining().drop_first()),
    {
        proof {
            use_type_invariant(&*self);
            use_type_invariant(self.buffer);
        }
        let buffer: &'a CircularBuffer<T> = self.buffer;
        if self.index >= buffer.size {
            return None;
        }
        let s = buffer.slot_of(self.index);
        self.index = self.index + 1;
        proof {
            assert(self.remaining() =~= old(self).remaining().drop_first());
        }
        Some(&buffer.data[s])
    }

    /// Bounds on the number of values left: exactly that number, twice.
    pub fn size_hint(&self) -> (hint: (usize, Option<usize>))
        ensures
            hint.0 == self.remaining().len(),
            hint.1 == Some(hint.0),
    {
        proof {
            use_type_invariant(self);
            use_type_invariant(self.buffer);
        }
        let remaining = self.buffer.size - self.index;
        (remaining, Some(remaining))
    }
}

impl<T: Copy> Clone for CircularBuffer<T> {
    /// An independent buffer with the same values and capacity.
    fn clone(&self) -> (copy: Self)
        ensures
            copy@ == self@,
            copy.spec_capacity() == self.spec_capacity(),
    {
        proof {
            use_type_invariant(self);
        }
        let mut data: Vec<T> = Vec::new();
        let mut i: usize = 0;
        while i < self.data.len()
            invariant
                i <= self.data@.len(),
                data@ =~= self.data@.subrange(0, i as int),
            decreases self.data@.len() - i,
        {
            data.push(self.data[i]);
            i = i + 1;
        }
        assert(data@ =~= self.data@);
        let copy = CircularBuffer { data, capacity: self.capacity, head: self.head, size: self.size };
        assert(copy@ =~= self@);
        copy
    }
}

} // verus!
