use vstd::prelude::*;
use crate::allocator::{allocate, alloc_error, failure_kind, failure_message, push_zeros, zeros};
use crate::element::Element;
use crate::error::{ArrayError, ErrorKind};

verus! {

/// How many entries of `s` equal `v`.
pub open spec fn count_of<T>(s: Seq<T>, v: T) -> nat
    decreases s.len(),
{
    if s.len() == 0 {
        0
    } else {
        count_of(s.drop_last(), v) + if s.last() == v {
            1nat
        } else {
            0nat
        }
    }
}

/// A fixed-capacity array of plain values, zero-initialised on creation.
///
/// The capacity is set once and never changes. Every index in `[0, cap)` is
/// valid; any other index is rejected with `IndexOutOfRange`. An index equal
/// to the capacity is out of range: reading one slot past the end is never
/// allowed.
#[derive(Debug)]
pub struct Array<T: Element> {
    data: Vec<T>,
    cap: usize,
}

impl<T: Element> View for Array<T> {
    type V = Seq<T>;

    /// The slots, in index order.
    closed spec fn view(&self) -> Seq<T> {
        self.data@
    }
}

impl<T: Element> Array<T> {
    /// The storage holds exactly `cap` slots, and `cap` is positive.
    pub closed spec fn wf(&self) -> bool {
        &&& self.data@.len() == self.cap
        &&& self.cap > 0
    }

    /// A well-formed array has at least one slot.
    pub proof fn lemma_nonempty(&self)
        requires
            self.wf(),
        ensures
            self@.len() > 0,
    {
    }

    fn allocate(size: usize) -> (r: Result<Vec<T>, ArrayError>)
        ensures
            match r {
                Ok(v) => alloc_error::<T>(size as nat).is_none() && v@ == zeros::<T>(size as nat),
                Err(e) => {
                    &&& e.spec_kind() == failure_kind::<T>(size as nat)
                    &&& e.message() == failure_message::<T>(size as nat)
                },
            },
    {
        allocate::<T>(size)
    }

    /// Overwrite every slot with the matching entry of `src`.
    fn copy_from(&mut self, src: &[T])
        requires
            old(self).wf(),
            src@.len() >= old(self)@.len(),
        ensures
            final(self).wf(),
            final(self).cap == old(self).cap,
            final(self)@ == src@.subrange(0, old(self)@.len() as int),
    {
        let mut i: usize = 0;
        while i < self.cap
            invariant
                self.wf(),
                self.cap == old(self).cap,
                src@.len() >= self.cap,
                i <= self.cap,
                forall|j: int| 0 <= j < i ==> self.data@[j] == src@[j],
            decreases self.cap - i,
        {
            self.data.set(i, src[i]);
            i = i + 1;
        }
        assert(self.data@ =~= src@.subrange(0, self.cap as int));
    }

    /// `None` for a valid index, else the `IndexOutOfRange` error.
    fn in_bounds(&self, idx: usize) -> (r: Option<ArrayError>)
        requires
            self.wf(),
        ensures
            r.is_none() <==> idx < self@.len(),
            match r {
                Some(e) => {
                    &&& e.spec_kind() == ErrorKind::IndexOutOfRange
                    &&& e.message() == "index out of range"@
                },
                None => true,
            },
    {
        if idx >= self.cap {
            return Some(ArrayError::with_kind(ErrorKind::IndexOutOfRange, "index out of range"));
        }
        None
    }

    /// Create an array of `size` slots, each holding the zero value.
    ///
    /// Fails exactly as `allocate` does for `size` elements of `T`.
    pub fn new(size: usize) -> (r: Result<Self, ArrayError>)
        ensures
            match r {
                Ok(a) => {
                    &&& alloc_error::<T>(size as nat).is_none()
                    &&& a.wf()
                    &&& a@ == zeros::<T>(size as nat)
                },
                Err(e) => {
                    &&& e.spec_kind() == failure_kind::<T>(size as nat)
                    &&& e.message() == failure_message::<T>(size as nat)
                },
            },
    {
        let data = Self::allocate(size)?;
        proof {
            if size == 0 {
                assert(vstd::layout::size_of::<T>() * 0 == 0) by (nonlinear_arith);
            }
        }
        Ok(Array { data, cap: size })
    }

    /// Create an array of `size` zero values where the caller knows that
    /// `size` is a valid request. If the allocator runs out of memory the
    /// process aborts; no error is returned.
    pub fn new_unchecked(size: usize) -> (r: Self)
        requires
            alloc_error::<T>(size as nat).is_none(),
        ensures
            r.wf(),
            r@ == zeros::<T>(size as nat),
    {
        proof {
            if size == 0 {
                assert(vstd::layout::size_of::<T>() * 0 == 0) by (nonlinear_arith);
            }
        }
        let mut data: Vec<T> = Vec::with_capacity(size);
        push_zeros(&mut data, size);
        Array { data, cap: size }
    }

    /// Create an array of `len` slots holding a copy of the first `len`
    /// entries of `src`.
    ///
    /// Fails exactly as `new(len)` does.
    pub fn from_raw(src: &[T], len: usize) -> (r: Result<Self, ArrayError>)
        requires
            len <= src@.len(),
        ensures
            match r {
                Ok(a) => {
                    &&& alloc_error::<T>(len as nat).is_none()
                    &&& a.wf()
                    &&& a@ == src@.subrange(0, len as int)
                },
                Err(e) => {
                    &&& e.spec_kind() == failure_kind::<T>(len as nat)
                    &&& e.message() == failure_message::<T>(len as nat)
                },
            },
    {
        let mut arr = Self::new(len)?;
        arr.copy_from(src);
        Ok(arr)
    }

    /// Create an array whose capacity is the length of `items`, holding
    /// them in order.
    pub fn from_vec(items: Vec<T>) -> (r: Self)
        requires
            alloc_error::<T>(items@.len()).is_none(),
        ensures
            r.wf(),
            r@ == items@,
    {
        let mut arr = Self::new_unchecked(items.len());
        arr.copy_from(items.as_slice());
        assert(items@.subrange(0, items@.len() as int) =~= items@);
        arr
    }

    /// Overwrite every slot with `with`.
    pub fn fill(&mut self, with: T)
        requires
            old(self).wf(),
        ensures
            final(self).wf(),
            final(self)@ == Seq::new(old(self)@.len(), |i: int| with),
    {
        let mut i: usize = 0;
        while i < self.cap
            invariant
                self.wf(),
                self.cap == old(self).cap,
                i <= self.cap,
                forall|j: int| 0 <= j < i ==> self.data@[j] == with,
            decreases self.cap - i,
        {
            self.data.set(i, with);
            i = i + 1;
        }
        assert(self.data@ =~= Seq::new(old(self)@.len(), |i: int| with));
    }

    /// A copy of the value at `idx`.
    ///
    /// Every `idx` below the capacity succeeds; any other fails with
    /// `IndexOutOfRange`.
    pub fn get(&self, idx: usize) -> (r: Result<T, ArrayError>)
        requires
            self.wf(),
        ensures
            idx < self@.len() ==> r == Ok::<T, ArrayError>(self@[idx as int]),
            idx >= self@.len() ==> {
                &&& r.is_err()
                &&& r->Err_0.spec_kind() == ErrorKind::IndexOutOfRange
                &&& r->Err_0.message() == "index out of range"@
            },
    {
        if let Some(err) = self.in_bounds(idx) {
            Err(err)
        } else {
            Ok(self.data[idx])
        }
    }

    /// Store `val` at `idx`, discarding the old value.
    ///
    /// An `idx` at or past the capacity fails with `IndexOutOfRange` and
    /// leaves the array unchanged.
    pub fn set(&mut self, idx: usize, val: T) -> (r: Result<(), ArrayError>)
        requires
            old(self).wf(),
        ensures
            final(self).wf(),
            idx < old(self)@.len() ==> r.is_ok() && final(self)@ == old(self)@.update(idx as int, val),
            idx >= old(self)@.len() ==> {
                &&& r.is_err()
                &&& r->Err_0.spec_kind() == ErrorKind::IndexOutOfRange
                &&& r->Err_0.message() == "index out of range"@
                &&& final(self)@ == old(self)@
            },
    {
        if let Some(err) = self.in_bounds(idx) {
            return Err(err);
        }
        self.data.set(idx, val);
        Ok(())
    }

    /// Take the value at `idx` out, leaving the zero value in its slot.
    ///
    /// The capacity is unchanged. An `idx` at or past the capacity fails
    /// with `IndexOutOfRange` and leaves the array unchanged.
    pub fn pop(&mut self, idx: usize) -> (r: Result<T, ArrayError>)
        requires
            old(self).wf(),
        ensures
            final(self).wf(),
            idx < old(self)@.len() ==> {
                &&& r == Ok::<T, ArrayError>(old(self)@[idx as int])
                &&& final(self)@ == old(self)@.update(idx as int, T::zero_value())
            },
            idx >= old(self)@.len() ==> {
                &&& r.is_err()
                &&& r->Err_0.spec_kind() == ErrorKind::IndexOutOfRange
                &&& r->Err_0.message() == "index out of range"@
                &&& final(self)@ == old(self)@
            },
    {
        if let Some(err) = self.in_bounds(idx) {
            return Err(err);
        }
        let val = self.data[idx];
        self.data.set(idx, T::zero());
        Ok(val)
    }

    /// Borrow the slots, in index order.
    pub fn as_ptr(&self) -> (r: &[T])
        ensures
            r@ == self@,
    {
        self.data.as_slice()
    }

    /// How many slots hold `val`.
    pub fn count(&self, val: T) -> (r: usize)
        requires
            self.wf(),
        ensures
            r == count_of(self@, val),
    {
        let mut n: usize = 0;
        let mut i: usize = 0;
        while i < self.cap
            invariant
                self.wf(),
                i <= self.cap,
                n <= i,
                n == count_of(self@.subrange(0, i as int), val),
            decreases self.cap - i,
        {
            assert(self@.subrange(0, i + 1).drop_last() =~= self@.subrange(0, i as int));
            if self.data[i].same(&val) {
                n = n + 1;
            }
            i = i + 1;
        }
        assert(self@.subrange(0, i as int) =~= self@);
        n
    }

    /// The capacity.
    pub fn cap(&self) -> (r: usize)
        requires
            self.wf(),
        ensures
            r == self@.len(),
    {
        self.cap
    }

    /// Hand the array over to an iterator that yields its slots in order.
    pub fn into_iter(self) -> (r: ArrayIter<T>)
        requires
            self.wf(),
        ensures
            r.wf(),
            r.items() == self@,
            r.pos() == 0,
            r.pos() <= r.items().len(),
    {
        ArrayIter::new(self)
    }
}

impl<T: Element> Clone for Array<T> {
    /// A copy in storage of its own: later changes to either array never
    /// reach the other.
    fn clone(&self) -> (r: Self)
        ensures
            r@ == self@,
            self.wf() ==> r.wf(),
    {
        let mut data: Vec<T> = Vec::with_capacity(self.data.len());
        let mut i: usize = 0;
        while i < self.data.len()
            invariant
                i <= self.data@.len(),
                data@ == self.data@.subrange(0, i as int),
            decreases self.data@.len() - i,
        {
            data.push(self.data[i]);
            i = i + 1;
            assert(data@ =~= self.data@.subrange(0, i as int));
        }
        assert(data@ =~= self.data@);
        Array { data, cap: self.cap }
    }
}

/// Two arrays are equal when they have the same capacity and equal values
/// in every slot. Arrays of different capacities are never equal, even when
/// one is a prefix of the other.
impl<T: Element> PartialEq for Array<T> {
    fn eq(&self, other: &Array<T>) -> (r: bool) {
        if self.data.len() != other.data.len() {
            return false;
        }
        let mut i: usize = 0;
        while i < self.data.len()
            invariant
                self.data@.len() == other.data@.len(),
                i <= self.data@.len(),
                forall|j: int| 0 <= j < i ==> self.data@[j] == other.data@[j],
            decreases self.data@.len() - i,
        {
            if !self.data[i].same(&other.data[i]) {
                return false;
            }
            i = i + 1;
        }
        assert(self.data@ =~= other.data@);
        true
    }
}

impl<T: Element> vstd::std_specs::cmp::PartialEqSpecImpl for Array<T> {
    open spec fn obeys_eq_spec() -> bool {
        true
    }

    open spec fn eq_spec(&self, other: &Array<T>) -> bool {
        self@ == other@
    }
}

/// Yields the slots of an array it owns, from index 0 up to the capacity,
/// once each.
#[derive(Debug)]
pub struct ArrayIter<T: Element> {
    arr: Array<T>,
    idx: usize,
}

impl<T: Element> ArrayIter<T> {
    /// The slots of the owned array.
    pub closed spec fn items(&self) -> Seq<T> {
        self.arr@
    }

    /// The index of the next slot to yield.
    pub closed spec fn pos(&self) -> nat {
        self.idx as nat
    }

    /// The array is well formed and the cursor has not passed its end.
    pub closed spec fn wf(&self) -> bool {
        self.arr.wf() && self.idx <= self.arr.cap
    }

    /// Take ownership of `arr`, with the cursor at its first slot.
    pub fn new(arr: Array<T>) -> (r: Self)
        requires
            arr.wf(),
        ensures
            r.wf(),
            r.items() == arr@,
            r.pos() == 0,
            r.pos() <= r.items().len(),
    {
        ArrayIter { arr, idx: 0 }
    }

    /// The next slot's value, or `None` once every slot has been yielded.
    pub fn next(&mut self) -> (r: Option<T>)
        requires
            old(self).wf(),
        ensures
            final(self).wf(),
            final(self).items() == old(self).items(),
            final(self).pos() <= final(self).items().len(),
            old(self).pos() < old(self).items().len() ==> {
                &&& r == Some(old(self).items()[old(self).pos() as int])
                &&& final(self).pos() == old(self).pos() + 1
            },
            old(self).pos() >= old(self).items().len() ==> {
                &&& r.is_none()
                &&& final(self).pos() == old(self).pos()
            },
    {
        if self.idx == self.arr.cap {
            return None;
        }
        self.idx = self.idx + 1;
        match self.arr.get(self.idx - 1) {
            Ok(v) => Some(v),
            Err(_) => None,
        }
    }
}

} // verus!
