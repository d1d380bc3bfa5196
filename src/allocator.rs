use vstd::prelude::*;
use vstd::layout::{align_of, size_of, valid_layout};
use crate::element::Element;
use crate::error::{ArrayError, ErrorKind};

verus! {

/// The number of bytes that `len` elements of `T` occupy.
pub open spec fn byte_size<T>(len: nat) -> int {
    (size_of::<T>() * len) as int
}

/// The error that allocating `len` elements of `T` must report, if any;
/// `None` when the request is well formed and only the allocator decides.
pub open spec fn alloc_error<T>(len: nat) -> Option<ErrorKind> {
    let size = byte_size::<T>(len);
    if size == 0 {
        Some(ErrorKind::ZeroSizeAllocation)
    } else if size > usize::MAX {
        Some(ErrorKind::SizeOverflow)
    } else if !valid_layout(size as usize, align_of::<T>() as usize) {
        Some(ErrorKind::InvalidLayout)
    } else {
        None
    }
}

/// The decimal digit for `d`, which is below ten.
pub open spec fn digit_char(d: nat) -> char {
    seq!['0', '1', '2', '3', '4', '5', '6', '7', '8', '9'][d as int]
}

/// `n` written in decimal, without leading zeros.
pub open spec fn decimal(n: nat) -> Seq<char>
    decreases n,
{
    if n < 10 {
        seq![digit_char(n)]
    } else {
        decimal(n / 10).push(digit_char(n % 10))
    }
}

/// The message for a (size, alignment) pair that forms no legal layout.
pub open spec fn layout_message(size: nat, align: nat) -> Seq<char> {
    "Failed to create layout from (size: "@ + decimal(size) + ", align: "@ + decimal(align) + ")"@
}

/// The kind of error that allocating `len` elements of `T` reports when it
/// fails.
pub open spec fn failure_kind<T>(len: nat) -> ErrorKind {
    match alloc_error::<T>(len) {
        Some(k) => k,
        None => ErrorKind::AllocationFailed,
    }
}

/// The message of the error that allocating `len` elements of `T` reports
/// when it fails.
pub open spec fn failure_message<T>(len: nat) -> Seq<char> {
    match alloc_error::<T>(len) {
        Some(ErrorKind::ZeroSizeAllocation) => "Cannot allocate zero sized value"@,
        Some(ErrorKind::SizeOverflow) => "Overflow when getting layout size"@,
        Some(_) => layout_message(byte_size::<T>(len) as nat, align_of::<T>()),
        None => "Failed to allocate memory for the Array"@,
    }
}

/// Relies on `format!` rendering each `usize` in decimal without leading
/// zeros, as `Display` for integers does.
#[verifier::external_body]
fn format_layout_message(size: usize, align: usize) -> (r: String)
    ensures
        r@ == layout_message(size as nat, align as nat),
{
    format!("Failed to create layout from (size: {}, align: {})", size, align)
}

/// `len` copies of the zero value.
pub open spec fn zeros<T: Element>(len: nat) -> Seq<T> {
    Seq::new(len, |i: int| T::zero_value())
}

/// Allocate zero-initialised storage for `len` elements of `T`.
///
/// A request whose byte size is zero, overflows a `usize`, or does not form
/// a legal layout for `T`'s alignment is rejected before any memory is
/// asked for. Otherwise the allocator either provides the memory, filled
/// with zero values, or the call fails with `AllocationFailed`.
pub fn allocate<T: Element>(len: usize) -> (r: Result<Vec<T>, ArrayError>)
    ensures
        match r {
            Ok(v) => alloc_error::<T>(len as nat).is_none() && v@ == zeros::<T>(len as nat),
            Err(e) => {
                &&& e.spec_kind() == failure_kind::<T>(len as nat)
                &&& e.message() == failure_message::<T>(len as nat)
            },
        },
{
    broadcast use vstd::layout::align_properties, vstd::layout::align_nonzero;

    let elem: usize = core::mem::size_of::<T>();
    let size: usize = match elem.checked_mul(len) {
        Some(n) => {
            if n == 0 {
                return Err(
                    ArrayError::with_kind(
                        ErrorKind::ZeroSizeAllocation,
                        "Cannot allocate zero sized value",
                    ),
                );
            }
            n
        },
        None => {
            return Err(
                ArrayError::with_kind(ErrorKind::SizeOverflow, "Overflow when getting layout size"),
            );
        },
    };
    let align: usize = core::mem::align_of::<T>();
    let limit: usize = isize::MAX as usize;
    assert(align > 0);
    assert(limit % align <= limit) by (nonlinear_arith)
        requires
            align > 0,
    ;
    if size > limit - limit % align {
        let msg = format_layout_message(size, align);
        return Err(ArrayError::with_kind(ErrorKind::InvalidLayout, msg.as_str()));
    }
    let mut v: Vec<T> = Vec::new();
    if v.try_reserve(len).is_err() {
        return Err(
            ArrayError::with_kind(
                ErrorKind::AllocationFailed,
                "Failed to allocate memory for the Array",
            ),
        );
    }
    push_zeros(&mut v, len);
    Ok(v)
}

/// Append `len` zero values to an empty vector.
pub(crate) fn push_zeros<T: Element>(v: &mut Vec<T>, len: usize)
    requires
        old(v)@.len() == 0,
    ensures
        final(v)@ == zeros::<T>(len as nat),
{
    let z = T::zero();
    let mut i: usize = 0;
    while i < len
        invariant
            i <= len,
            v@ == zeros::<T>(i as nat),
            z == T::zero_value(),
        decreases len - i,
    {
        v.push(z);
        i = i + 1;
        assert(v@ =~= zeros::<T>(i as nat));
    }
}

} // verus!
