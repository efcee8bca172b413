//! Laws of the sliding window kept by [`CircularBuffer`](crate::utils::CircularBuffer).
//!
//! The contracts of `CircularBuffer` describe one operation at a time; the
//! proofs here state what holds across many of them, in terms of the same spec
//! functions.

use core::cmp::Ordering;
use vstd::prelude::*;
use vstd::std_specs::cmp::PartialOrdSpec;
use vstd::std_specs::ops::AddSpec;

use crate::utils::circular_buffer::{
    add_fold, add_fold_defined, max_fold, min_fold, sliding_window, window_push,
};

verus! {

/// The window reached from `window` by pushing the values of `values` one after
/// the other, oldest first, keeping at most `capacity` values. By the contract of
/// `CircularBuffer::push`, this is the view of a buffer that was in state
/// `window` after `push` was called with each value of `values` in turn.
pub open spec fn window_after_pushes<T>(window: Seq<T>, values: Seq<T>, capacity: nat) -> Seq<T>
    decreases values.len(),
{
    if values.len() == 0 {
        window
    } else {
        window_push(window_after_pushes(window, values.drop_last(), capacity), values.last(), capacity)
    }
}

/// A buffer of capacity `capacity` (positive) into which the values of `history`
/// were pushed, in order, since it was created or cleared (both leave it empty)
/// holds exactly the last `min(history.len(), capacity)` of them, oldest first.
pub proof fn lemma_buffer_holds_latest_values<T>(history: Seq<T>, capacity: nat)
    requires
        capacity > 0,
    ensures
        window_after_pushes(Seq::<T>::empty(), history, capacity) == sliding_window(
            history,
            capacity,
        ),
        sliding_window(history, capacity).len() == if history.len() <= capacity {
            history.len()
        } else {
            capacity
        },
    decreases history.len(),
{
    if history.len() > 0 {
        let earlier = history.drop_last();
        lemma_buffer_holds_latest_values(earlier, capacity);
        let before = sliding_window(earlier, capacity);
        let after = window_push(before, history.last(), capacity);
        if earlier.len() < capacity {
            assert(after =~= sliding_window(history, capacity));
        } else {
            assert(after =~= sliding_window(history, capacity));
        }
    } else {
        assert(window_after_pushes(Seq::<T>::empty(), history, capacity) =~= sliding_window(
            history,
            capacity,
        ));
    }
}

/// Right after a value is pushed, it is the newest value of the window (what
/// `CircularBuffer::last` returns), and the window is not empty.
pub proof fn lemma_last_is_latest_push<T>(window: Seq<T>, value: T, capacity: nat)
    requires
        capacity > 0,
        window.len() <= capacity,
    ensures
        window_push(window, value, capacity).len() > 0,
        window_push(window, value, capacity).last() == value,
        window_push(window, value, capacity).len() <= capacity,
{
}

/// The arithmetic total of a sequence of integers.
pub open spec fn total(values: Seq<i64>) -> int
    decreases values.len(),
{
    if values.len() == 0 {
        0
    } else {
        total(values.drop_last()) + values.last()
    }
}

/// For 64-bit integers (whose default is zero), when no running sum overflows,
/// the sum that `CircularBuffer::sum` computes is the arithmetic total of the
/// window.
pub proof fn lemma_integer_window_sum_is_total(values: Seq<i64>)
    requires
        add_fold_defined(0i64, values),
    ensures
        add_fold(0i64, values) == total(values),
    decreases values.len(),
{
    if values.len() > 0 {
        let earlier = values.drop_last();
        assert forall|i: int| 0 <= i < earlier.len() implies #[trigger] add_fold(
            0i64,
            earlier.take(i),
        ).add_req(earlier[i]) by {
            assert(earlier.take(i) =~= values.take(i));
            assert(add_fold(0i64, values.take(i)).add_req(values[i]));
        }
        lemma_integer_window_sum_is_total(earlier);
        let n = values.len() - 1;
        assert(values.take(n) =~= earlier);
        assert(add_fold(0i64, values.take(n)).add_req(values[n]));
    }
}

/// `partial_cmp` (as specified for `T`) is a total order: any two values are
/// comparable, `a` compares greater than `b` exactly when `b` compares less than
/// `a`, and "does not compare greater" is transitive. The primitive integer
/// types are ordered this way; floating-point numbers are not (NaN).
pub open spec fn compares_totally<T: PartialOrd>() -> bool {
    &&& forall|x: T, y: T| #[trigger] x.partial_cmp_spec(&y) is Some
    &&& forall|x: T, y: T|
        #![trigger x.partial_cmp_spec(&y), y.partial_cmp_spec(&x)]
        x.partial_cmp_spec(&y) == Some(Ordering::Greater) <==> y.partial_cmp_spec(&x) == Some(
            Ordering::Less,
        )
    &&& forall|x: T, y: T, z: T|
        #![trigger x.partial_cmp_spec(&y), y.partial_cmp_spec(&z)]
        x.partial_cmp_spec(&y) != Some(Ordering::Greater) && y.partial_cmp_spec(&z) != Some(
            Ordering::Greater,
        ) ==> x.partial_cmp_spec(&z) != Some(Ordering::Greater)
}

/// Buffers of signed or unsigned 64-bit integers meet the hypothesis of the
/// extremum laws below.
pub proof fn lemma_integers_compare_totally()
    ensures
        compares_totally::<i64>(),
        compares_totally::<u64>(),
{
}

/// Under a total order no value compares greater than itself.
proof fn lemma_not_greater_than_itself<T: PartialOrd>(x: T)
    requires
        compares_totally::<T>(),
    ensures
        x.partial_cmp_spec(&x) != Some(Ordering::Greater),
{
    assert(x.partial_cmp_spec(&x) == Some(Ordering::Greater) ==> x.partial_cmp_spec(&x) == Some(
        Ordering::Less,
    ));
}

/// When values are totally ordered, the value that `CircularBuffer::max` returns
/// for a non-empty window is one of the window's values, and no value of the
/// window compares greater than it.
pub proof fn lemma_window_max_is_greatest<T: PartialOrd>(values: Seq<T>)
    requires
        values.len() > 0,
        compares_totally::<T>(),
    ensures
        values.contains(max_fold(values)),
        forall|i: int|
            0 <= i < values.len() ==> #[trigger] values[i].partial_cmp_spec(&max_fold(values))
                != Some(Ordering::Greater),
    decreases values.len(),
{
    let m = max_fold(values);
    if values.len() == 1 {
        assert(values[0] == m);
        lemma_not_greater_than_itself(m);
    } else {
        let earlier = values.drop_last();
        let last = values.last();
        lemma_window_max_is_greatest(earlier);
        let best = max_fold(earlier);
        let k = choose|k: int| 0 <= k < earlier.len() && earlier[k] == best;
        assert(values[k] == best);
        lemma_not_greater_than_itself(last);
        assert forall|i: int| 0 <= i < values.len() implies #[trigger] values[i].partial_cmp_spec(
            &m,
        ) != Some(Ordering::Greater) by {
            if i < values.len() - 1 {
                assert(values[i] == earlier[i]);
                assert(earlier[i].partial_cmp_spec(&best) != Some(Ordering::Greater));
            }
            if best.partial_cmp_spec(&last) != Some(Ordering::Greater) && i < values.len() - 1 {
                assert(values[i].partial_cmp_spec(&best) != Some(Ordering::Greater));
            }
        }
    }
}

/// When values are totally ordered, the value that `CircularBuffer::min` returns
/// for a non-empty window is one of the window's values, and it compares greater
/// than no value of the window.
pub proof fn lemma_window_min_is_least<T: PartialOrd>(values: Seq<T>)
    requires
        values.len() > 0,
        compares_totally::<T>(),
    ensures
        values.contains(min_fold(values)),
        forall|i: int|
            0 <= i < values.len() ==> #[trigger] min_fold(values).partial_cmp_spec(&values[i])
                != Some(Ordering::Greater),
    decreases values.len(),
{
    let m = min_fold(values);
    if values.len() == 1 {
        assert(values[0] == m);
        lemma_not_greater_than_itself(m);
    } else {
        let earlier = values.drop_last();
        let last = values.last();
        lemma_window_min_is_least(earlier);
        let best = min_fold(earlier);
        let k = choose|k: int| 0 <= k < earlier.len() && earlier[k] == best;
        assert(values[k] == best);
        lemma_not_greater_than_itself(last);
        assert forall|i: int| 0 <= i < values.len() implies #[trigger] m.partial_cmp_spec(
            &values[i],
        ) != Some(Ordering::Greater) by {
            if i < values.len() - 1 {
                assert(values[i] == earlier[i]);
                assert(best.partial_cmp_spec(&earlier[i]) != Some(Ordering::Greater));
                if best.partial_cmp_spec(&last) == Some(Ordering::Greater) {
                    assert(last.partial_cmp_spec(&best) == Some(Ordering::Less));
                }
            }
        }
    }
}

} // verus!
