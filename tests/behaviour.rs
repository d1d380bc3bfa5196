use better_array::allocator::allocate;
use better_array::array::{Array, ArrayIter};
use better_array::error::{ArrayError, ErrorKind};

#[test]
fn zero_length_is_rejected() {
    let e = allocate::<u32>(0).unwrap_err();
    assert_eq!(e.kind(), ErrorKind::ZeroSizeAllocation);
    assert!(e.matches("Cannot allocate zero sized value"));
    let e = Array::<i32>::new(0).unwrap_err();
    assert_eq!(e.kind(), ErrorKind::ZeroSizeAllocation);
}

#[test]
fn byte_size_overflow_is_rejected() {
    let e = allocate::<u64>(usize::MAX).unwrap_err();
    assert_eq!(e.kind(), ErrorKind::SizeOverflow);
    assert!(e.matches("Overflow when getting layout size"));
    let e = allocate::<u16>(usize::MAX / 2 + 1).unwrap_err();
    assert_eq!(e.kind(), ErrorKind::SizeOverflow);
}

#[test]
fn oversized_layout_is_rejected() {
    let e = allocate::<u8>(usize::MAX).unwrap_err();
    assert_eq!(e.kind(), ErrorKind::InvalidLayout);
    let e = Array::<u8>::new(isize::MAX as usize + 1).unwrap_err();
    assert_eq!(e.kind(), ErrorKind::InvalidLayout);
}

#[test]
fn exhausted_allocator_is_reported() {
    let e = allocate::<u8>(isize::MAX as usize).unwrap_err();
    assert_eq!(e.kind(), ErrorKind::AllocationFailed);
    assert!(e.matches("Failed to allocate memory for the Array"));
}

#[test]
fn fresh_array_reads_zero() {
    let a = Array::<i64>::new(17).unwrap();
    assert_eq!(a.cap(), 17);
    for i in 0..17 {
        assert_eq!(a.get(i).unwrap(), 0);
    }
    assert_eq!(a.count(0), 17);
}

#[test]
fn set_then_get_round_trips() {
    let mut a = Array::<u32>::new(8).unwrap();
    for i in 0..8 {
        a.set(i, (i as u32) * 3 + 1).unwrap();
    }
    for i in 0..8 {
        assert_eq!(a.get(i).unwrap(), (i as u32) * 3 + 1);
    }
    a.set(5, u32::MAX).unwrap();
    assert_eq!(a.get(5).unwrap(), u32::MAX);
    assert_eq!(a.get(4).unwrap(), 13);
}

#[test]
fn pop_returns_value_and_zeroes_slot() {
    let mut a = Array::<i16>::new(4).unwrap();
    a.set(2, -9).unwrap();
    assert_eq!(a.pop(2).unwrap(), -9);
    assert_eq!(a.get(2).unwrap(), 0);
    assert_eq!(a.cap(), 4);
    assert_eq!(a.pop(2).unwrap(), 0);
}

#[test]
fn fill_then_count_is_capacity() {
    let mut a = Array::<u8>::new(10).unwrap();
    a.fill(200);
    assert_eq!(a.count(200), 10);
    assert_eq!(a.count(0), 0);
    a.set(3, 1).unwrap();
    assert_eq!(a.count(200), 9);
    assert_eq!(a.count(1), 1);
}

#[test]
fn clone_is_independent() {
    let mut a = Array::<u64>::new(5).unwrap();
    a.fill(7);
    let mut b = a.clone();
    b.set(1, 100).unwrap();
    assert_eq!(a.get(1).unwrap(), 7);
    assert_eq!(b.get(1).unwrap(), 100);
    a.set(3, 55).unwrap();
    assert_eq!(b.get(3).unwrap(), 7);
    assert_eq!(a.get(3).unwrap(), 55);
    assert!(a != b);
}

#[test]
fn index_at_capacity_is_out_of_range() {
    let mut a = Array::<usize>::new(6).unwrap();
    assert!(a.get(5).is_ok());
    let e = a.get(6).unwrap_err();
    assert_eq!(e.kind(), ErrorKind::IndexOutOfRange);
    assert!(e.matches("index out of range"));
    assert!(a.get(usize::MAX).is_err());
    assert_eq!(a.set(6, 1).unwrap_err().kind(), ErrorKind::IndexOutOfRange);
    assert_eq!(a.pop(7).unwrap_err().kind(), ErrorKind::IndexOutOfRange);
    assert_eq!(a.count(0), 6);
}

#[test]
fn remove_every_maximum() {
    let mut array = Array::<i32>::new(64).unwrap();
    array.fill(i32::MAX);
    let mut it: ArrayIter<i32> = array.clone().into_iter();
    let mut idx: usize = 0;
    while let Some(item) = it.next() {
        if item == i32::MAX {
            array.pop(idx).unwrap();
        }
        idx += 1;
    }
    assert_eq!(idx, 64);
    assert_eq!(array.count(0), 64);
}

#[test]
fn from_range_reads_and_iterates_in_order() {
    let array = Array::<usize>::from_vec((0..60).collect());
    assert_eq!(array.cap(), 60);
    for idx in 0..60 {
        assert_eq!(array.get(idx).unwrap(), idx);
    }
    let mut it = array.into_iter();
    let mut seen: Vec<usize> = Vec::new();
    while let Some(item) = it.next() {
        seen.push(item);
    }
    assert_eq!(seen, (0..60).collect::<Vec<usize>>());
    assert_eq!(it.next(), None);
}

#[test]
fn from_raw_copies_a_prefix() {
    let src: Vec<i8> = vec![4, -3, 2, 9, 9];
    let a = Array::<i8>::from_raw(&src, 3).unwrap();
    assert_eq!(a.cap(), 3);
    assert_eq!(a.as_ptr(), &[4, -3, 2]);
    assert_eq!(Array::<i8>::from_raw(&src, 0).unwrap_err().kind(), ErrorKind::ZeroSizeAllocation);
}

#[test]
fn new_unchecked_is_zeroed() {
    let a = Array::<u16>::new_unchecked(3);
    assert_eq!(a.as_ptr(), &[0, 0, 0]);
}

#[test]
fn equality_needs_same_capacity() {
    let a = Array::<u8>::from_vec(vec![1, 2, 3]);
    let b = Array::<u8>::from_vec(vec![1, 2, 3, 4]);
    let c = Array::<u8>::from_vec(vec![1, 2, 3]);
    let d = Array::<u8>::from_vec(vec![1, 5, 3]);
    assert!(a != b);
    assert!(a == c);
    assert!(a != d);
}

#[test]
fn errors_compare_by_message() {
    let a = ArrayError::new("index out of range");
    let b = Array::<u8>::new(1).unwrap().get(1).unwrap_err();
    assert!(a == b);
    assert_ne!(a.kind(), b.kind());
    assert_eq!(a.msg(), "index out of range");
    assert_eq!(a.to_string(), "index out of range");
    assert!(ArrayError::new("x") != ArrayError::new("y"));
    assert!(a.clone() == a);
}

#[test]
fn layout_error_names_size_and_alignment() {
    let e = allocate::<u8>(usize::MAX).unwrap_err();
    let expected = format!("Failed to create layout from (size: {}, align: 1)", usize::MAX);
    assert_eq!(e.msg(), &expected);
    let e = allocate::<u32>(isize::MAX as usize / 4 + 1).unwrap_err();
    assert_eq!(e.kind(), ErrorKind::InvalidLayout);
    let expected = format!(
        "Failed to create layout from (size: {}, align: 4)",
        (isize::MAX as usize / 4 + 1) * 4
    );
    assert_eq!(e.msg(), &expected);
}

#[test]
fn construction_passes_on_allocator_messages() {
    let zero = ArrayError::new("Cannot allocate zero sized value");
    assert!(Array::<u8>::new(0).unwrap_err() == zero);
    assert!(allocate::<u64>(0).unwrap_err() == zero);
    assert!(Array::<u8>::from_raw(&[1u8, 2], 0).unwrap_err() == zero);
    let overflow = ArrayError::new("Overflow when getting layout size");
    assert!(allocate::<u64>(usize::MAX).unwrap_err() == overflow);
    assert!(Array::<u64>::new(usize::MAX).unwrap_err() == overflow);
}

#[test]
fn out_of_range_access_reports_message() {
    let range = ArrayError::new("index out of range");
    let mut a = Array::<u8>::new(3).unwrap();
    assert!(a.get(3).unwrap_err() == range);
    assert!(a.set(3, 9).unwrap_err() == range);
    assert!(a.pop(4).unwrap_err() == range);
    assert_eq!(a.as_ptr(), &[0, 0, 0]);
}
