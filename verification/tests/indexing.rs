use unchecked_index::get_unchecked;
use unchecked_index::get_unchecked_mut;
use unchecked_index::unchecked_index;
use unchecked_index::OutOfBoundsAccess;
use unchecked_index::SliceRange;
use unchecked_index::SliceRangeFrom;
use unchecked_index::SliceRangeFull;
use unchecked_index::SliceRangeTo;
use unchecked_index::Window;

#[test]
fn it_works() {
    let data: Vec<usize> = vec![0; 8];
    let mut data = unchecked_index(data);
    for i in 0..data.as_inner().len() {
        *data.index_mut(i) = i;
    }
    assert_eq!(data.into_inner(), vec![0, 1, 2, 3, 4, 5, 6, 7]);
}

#[test]
fn debug_oob_check_write() {
    let data: Vec<usize> = vec![0; 8];
    let mut data = unchecked_index(Window::new(data, 7));
    let r = data.index_mut_checked(7usize);
    assert_eq!(r.err(), Some(OutOfBoundsAccess::Scalar { index: 7, len: 7 }));
}

#[test]
fn debug_oob_check_read() {
    let data: Vec<usize> = vec![0; 8];
    let data = unchecked_index(Window::new(data, 7));
    let r = data.index_checked(17usize);
    assert_eq!(r.err(), Some(OutOfBoundsAccess::Scalar { index: 17, len: 7 }));
}

#[test]
fn non_debug_oob() {
    // outside bounds of the window but not the backing store -- accessible
    let data: Vec<usize> = vec![0; 8];
    let mut data = unchecked_index(Window::new(data, 7));
    *data.index_mut(7usize) = 1;
    assert_eq!(data.into_inner().into_vec(), vec![0, 0, 0, 0, 0, 0, 0, 1]);
}

#[test]
fn debug_oob_check_read_slice() {
    let data: Vec<usize> = vec![0; 8];
    let data = unchecked_index(Window::new(data, 7));
    let r = data.index_checked(SliceRange { start: 5, end: 10 });
    assert_eq!(
        r.err(),
        Some(OutOfBoundsAccess::Bounded { start: 5, end: 10, len: 7 })
    );
}

#[test]
fn non_debug_oob_slice() {
    // outside bounds of the window but not the backing store -- accessible
    let data: Vec<usize> = vec![0; 8];
    let mut data = unchecked_index(Window::new(data, 7));
    data.index_mut(SliceRange { start: 7, end: 8 })[0] = 1;
    assert_eq!(data.into_inner().into_vec(), vec![0, 0, 0, 0, 0, 0, 0, 1]);
}

#[test]
fn scalar_validity_boundary() {
    let w = unchecked_index(vec![10u64, 20, 30]);
    assert_eq!(w.index_checked(0usize).ok(), Some(&10));
    assert_eq!(w.index_checked(2usize).ok(), Some(&30));
    assert_eq!(
        w.index_checked(3usize).err(),
        Some(OutOfBoundsAccess::Scalar { index: 3, len: 3 })
    );
}

#[test]
fn scalar_validated_write() {
    let mut w = unchecked_index(vec![10u64, 20, 30]);
    *w.index_mut_checked(1usize).unwrap() = 99;
    assert_eq!(
        w.index_mut_checked(3usize).err(),
        Some(OutOfBoundsAccess::Scalar { index: 3, len: 3 })
    );
    assert_eq!(w.into_inner(), vec![10, 99, 30]);
}

#[test]
fn bounded_range_validity() {
    let w = unchecked_index(vec![1u64, 2, 3]);
    assert_eq!(
        w.index_checked(SliceRange { start: 1, end: 3 }).ok(),
        Some(&[2u64, 3][..])
    );
    assert_eq!(
        w.index_checked(SliceRange { start: 2, end: 1 }).err(),
        Some(OutOfBoundsAccess::Bounded { start: 2, end: 1, len: 3 })
    );
    assert_eq!(
        w.index_checked(SliceRange { start: 1, end: 4 }).err(),
        Some(OutOfBoundsAccess::Bounded { start: 1, end: 4, len: 3 })
    );
}

#[test]
fn to_open_range_validity() {
    let w = unchecked_index(vec![1u64, 2, 3]);
    assert_eq!(
        w.index_checked(SliceRangeTo { end: 2 }).ok(),
        Some(&[1u64, 2][..])
    );
    assert_eq!(
        w.index_checked(SliceRangeTo { end: 3 }).ok(),
        Some(&[1u64, 2, 3][..])
    );
    assert_eq!(
        w.index_checked(SliceRangeTo { end: 4 }).err(),
        Some(OutOfBoundsAccess::ToOpen { end: 4, len: 3 })
    );
}

#[test]
fn from_open_range_validity() {
    let w = unchecked_index(vec![1u64, 2, 3]);
    assert_eq!(
        w.index_checked(SliceRangeFrom { start: 1 }).ok(),
        Some(&[2u64, 3][..])
    );
    assert_eq!(
        w.index_checked(SliceRangeFrom { start: 3 }).ok(),
        Some(&[][..])
    );
    assert_eq!(
        w.index_checked(SliceRangeFrom { start: 4 }).err(),
        Some(OutOfBoundsAccess::FromOpen { start: 4, len: 3 })
    );
}

#[test]
fn full_range_always_succeeds() {
    let w = unchecked_index(vec![1u64, 2, 3]);
    assert_eq!(w.index_checked(SliceRangeFull).ok(), Some(&[1u64, 2, 3][..]));
    let empty = unchecked_index(Vec::<u64>::new());
    assert_eq!(empty.index_checked(SliceRangeFull).ok(), Some(&[][..]));
    let win = unchecked_index(Window::new(vec![1u64, 2, 3], 2));
    assert_eq!(win.index_checked(SliceRangeFull).ok(), Some(&[1u64, 2][..]));
}

#[test]
fn writes_observable_after_discard() {
    let mut w = unchecked_index(vec![0u64; 4]);
    *w.index_mut(2usize) = 7;
    let recovered = w.into_inner();
    assert_eq!(recovered, vec![0, 0, 7, 0]);
}

#[test]
fn range_write_observable_after_discard() {
    let mut w = unchecked_index(vec![0u64; 4]);
    let mid = w.index_mut(SliceRange { start: 1, end: 3 });
    mid[0] = 5;
    mid[1] = 6;
    assert_eq!(w.into_inner(), vec![0, 5, 6, 0]);
}

#[test]
fn repeated_reads_are_idempotent() {
    let w = unchecked_index(vec![4u64, 5, 6]);
    let first = w.index_checked(1usize).ok().copied();
    let second = w.index_checked(1usize).ok().copied();
    assert_eq!(first, second);
    assert_eq!(first, Some(5));
    let missing_first = w.index_checked(9usize).err();
    let missing_second = w.index_checked(9usize).err();
    assert_eq!(missing_first, missing_second);
    assert_eq!(w.into_inner(), vec![4, 5, 6]);
}

#[test]
fn free_functions_access_a_bare_container() {
    let mut v = vec![1u64, 2, 3];
    assert_eq!(get_unchecked(&v, 1usize), &2);
    assert_eq!(get_unchecked(&v, SliceRangeTo { end: 2 }), &[1, 2][..]);
    *get_unchecked_mut(&mut v, 0usize) = 9;
    get_unchecked_mut(&mut v, SliceRangeFrom { start: 2 })[0] = 8;
    assert_eq!(v, vec![9, 2, 8]);
}

#[test]
fn wrapper_over_borrowed_container_reads() {
    let v = vec![1u64, 2, 3];
    let w = unchecked_index(&v);
    assert_eq!(w.index_checked(1usize).ok(), Some(&2));
    assert_eq!(*w.index(0usize), 1);
    assert_eq!(
        w.index_checked(3usize).err(),
        Some(OutOfBoundsAccess::Scalar { index: 3, len: 3 })
    );
}

#[test]
fn wrapper_over_mutable_borrow_writes_through() {
    let mut v = vec![0u64; 3];
    {
        let mut w = unchecked_index(&mut v);
        *w.index_mut(1usize) = 4;
    }
    assert_eq!(v, vec![0, 4, 0]);
}

#[test]
fn window_open_shapes_stop_at_the_window() {
    let win = unchecked_index(Window::new(vec![1u64, 2, 3, 4], 3));
    assert_eq!(
        win.index_checked(SliceRangeFrom { start: 1 }).ok(),
        Some(&[2u64, 3][..])
    );
    assert_eq!(
        win.index_checked(SliceRangeTo { end: 3 }).ok(),
        Some(&[1u64, 2, 3][..])
    );
    assert_eq!(
        win.index_checked(SliceRangeTo { end: 4 }).err(),
        Some(OutOfBoundsAccess::ToOpen { end: 4, len: 3 })
    );
    assert_eq!(win.as_inner().len(), 3);
}
