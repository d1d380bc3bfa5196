use vstd::prelude::*;
use crate::allocator::{alloc_error, byte_size, failure_message, zeros};
use crate::array::count_of;
use crate::element::Element;
use crate::error::ErrorKind;

verus! {

/// A request for zero elements is rejected as a zero-size allocation, and a
/// request whose byte size overflows a `usize` is rejected as an overflow,
/// each with its own message.
pub proof fn lemma_degenerate_requests_rejected<T>(len: nat)
    ensures
        alloc_error::<T>(0) == Some(ErrorKind::ZeroSizeAllocation),
        failure_message::<T>(0) == "Cannot allocate zero sized value"@,
        byte_size::<T>(len) > usize::MAX ==> {
            &&& alloc_error::<T>(len) == Some(ErrorKind::SizeOverflow)
            &&& failure_message::<T>(len) == "Overflow when getting layout size"@
        },
{
    assert(vstd::layout::size_of::<T>() * 0 == 0) by (nonlinear_arith);
}

/// Every slot of a freshly created array reads as the zero value.
pub proof fn lemma_fresh_slots_are_zero<T: Element>(n: nat, i: int)
    requires
        0 <= i < n,
    ensures
        zeros::<T>(n).len() == n,
        zeros::<T>(n)[i] == T::zero_value(),
{
}

/// Reading a slot right after storing a value there gives that value, and
/// the slot stays in range.
pub proof fn lemma_set_then_get<T>(slots: Seq<T>, idx: int, value: T)
    requires
        0 <= idx < slots.len(),
    ensures
        slots.update(idx, value).len() == slots.len(),
        slots.update(idx, value)[idx] == value,
{
}

/// After a slot is taken out, reading it gives the zero value.
pub proof fn lemma_pop_then_get<T: Element>(slots: Seq<T>, idx: int)
    requires
        0 <= idx < slots.len(),
    ensures
        slots.update(idx, T::zero_value()).len() == slots.len(),
        slots.update(idx, T::zero_value())[idx] == T::zero_value(),
{
}

/// After every slot is filled with `v`, the number of slots holding `v` is
/// the capacity.
pub proof fn lemma_fill_then_count<T>(n: nat, v: T)
    ensures
        count_of(Seq::new(n, |i: int| v), v) == n,
    decreases n,
{
    if n > 0 {
        assert(Seq::new(n, |i: int| v).drop_last() =~= Seq::new((n - 1) as nat, |i: int| v));
        lemma_fill_then_count::<T>((n - 1) as nat, v);
    }
}

/// Storing into a clone changes only that slot of the clone; the original
/// keeps every value it had, so each side reads as before everywhere else.
pub proof fn lemma_clone_independent<T>(original: Seq<T>, copy: Seq<T>, idx: int, value: T)
    requires
        copy == original,
        0 <= idx < copy.len(),
    ensures
        copy.update(idx, value).len() == original.len(),
        forall|j: int|
            0 <= j < original.len() && j != idx ==> #[trigger] copy.update(idx, value)[j]
                == original[j],
        forall|j: int|
            0 <= j < original.len() && j != idx ==> #[trigger] original.update(idx, value)[j]
                == copy[j],
{
}

} // verus!
