use introwospection::ptr::{Ptr, Region, SlicePtr};

fn region(base: usize, len: usize) -> Region {
    Region { base, len }
}

fn ptr(base: usize, len: usize, addr: usize, elem_size: usize) -> Ptr {
    Ptr { region: region(base, len), addr, elem_size }
}

#[test]
fn null_pointer_is_null() {
    let p = Ptr::null(1);
    assert_eq!(p.addr, 0);
    assert!(p.is_null());
}

#[test]
fn live_pointer_is_not_null() {
    let p = ptr(100, 16, 100, 4);
    assert!(!p.is_null());
}

#[test]
fn from_bits_keeps_address_and_has_empty_region() {
    let p = Ptr::from_bits(0x4000, 8);
    assert_eq!(p.addr, 0x4000);
    assert_eq!(p.region, Region { base: 0x4000, len: 0 });
    assert_eq!(p.elem_size, 8);
}

#[test]
fn cast_changes_only_element_size() {
    let p = ptr(100, 16, 104, 4);
    let q = p.cast(1);
    assert_eq!(q.addr, 104);
    assert_eq!(q.region, p.region);
    assert_eq!(q.elem_size, 1);
}

#[test]
fn as_mut_is_identity_on_the_value() {
    let p = ptr(100, 16, 104, 4);
    assert_eq!(p.as_mut(), p);
}

#[test]
fn addr_reads_the_address() {
    let p = ptr(100, 16, 112, 4);
    assert_eq!(p.addr(), 112);
}

#[test]
fn with_addr_preserves_provenance() {
    let p = ptr(100, 16, 100, 4);
    let q = p.with_addr(108);
    assert_eq!(q.addr, 108);
    assert_eq!(q.region, p.region);
    assert_eq!(q.elem_size, 4);
}

#[test]
fn offset_moves_by_elements() {
    let p = ptr(100, 16, 100, 4);
    let q = p.offset(3);
    assert_eq!(q.addr, 112);
    assert_eq!(q.region, p.region);
    let back = q.offset(-3);
    assert_eq!(back, p);
}

#[test]
fn offset_zero_is_a_noop() {
    let p = ptr(100, 16, 108, 4);
    assert_eq!(p.offset(0), p);
}

#[test]
fn add_and_sub_are_inverse() {
    let p = ptr(1000, 64, 1000, 8);
    let q = p.add(5);
    assert_eq!(q.addr, 1040);
    assert_eq!(q.sub(5), p);
}

#[test]
fn wrapping_offset_zero_is_a_noop() {
    let p = ptr(100, 16, 108, 4);
    assert_eq!(p.wrapping_offset(0), p);
}

#[test]
fn wrapping_offset_matches_offset_in_bounds() {
    let p = ptr(100, 16, 100, 4);
    assert_eq!(p.wrapping_offset(2), p.offset(2));
    assert_eq!(p.wrapping_offset(2).wrapping_offset(-2), p);
}

#[test]
fn wrapping_add_wraps_around_the_address_space() {
    let p = ptr(usize::MAX - 4, 0, usize::MAX - 1, 1);
    let q = p.wrapping_add(3);
    assert_eq!(q.addr, 1);
    assert_eq!(q.region, p.region);
}

#[test]
fn wrapping_sub_wraps_around_the_address_space() {
    let p = ptr(2, 0, 2, 1);
    let q = p.wrapping_sub(5);
    assert_eq!(q.addr, usize::MAX - 2);
    assert_eq!(q.region, p.region);
    assert_eq!(q.wrapping_add(5), p);
}

#[test]
fn offset_from_inverts_offset() {
    // two elements of a five-element array of 4-byte values
    let a = ptr(100, 20, 100, 4);
    let ptr1 = a.offset(1);
    let ptr2 = a.offset(3);
    assert_eq!(ptr2.offset_from(ptr1), 2);
    assert_eq!(ptr1.offset_from(ptr2), -2);
    assert_eq!(ptr1.offset(2), ptr2);
    assert_eq!(ptr2.offset(-2), ptr1);
}

#[test]
fn offset_from_of_a_pointer_to_itself_is_zero() {
    let p = ptr(100, 20, 108, 4);
    assert_eq!(p.offset_from(p), 0);
}

#[test]
fn guaranteed_eq_is_reflexive_and_binding() {
    let a = ptr(100, 16, 104, 4);
    let b = ptr(100, 16, 104, 4);
    let c = ptr(100, 16, 108, 4);
    assert!(a.guaranteed_eq(a));
    assert!(a.guaranteed_eq(b));
    assert!(!a.guaranteed_eq(c));
    assert!(a.guaranteed_ne(c));
    assert!(!a.guaranteed_ne(b));
}

#[test]
fn align_offset_on_byte_pointer() {
    let p = ptr(0, 64, 5, 1);
    assert_eq!(p.align_offset(4), 3);
    let aligned = ptr(0, 64, 8, 1);
    assert_eq!(aligned.align_offset(4), 0);
    assert_eq!(aligned.align_offset(1), 0);
}

#[test]
fn align_offset_counts_in_elements() {
    let p = ptr(0, 64, 2, 2);
    // six bytes to the next multiple of eight: three two-byte elements
    assert_eq!(p.align_offset(8), 3);
}

#[test]
fn align_offset_returns_sentinel_when_unreachable() {
    let p = ptr(0, 64, 1, 4);
    // seven bytes to the next multiple of eight is no whole element count
    assert_eq!(p.align_offset(8), usize::MAX);
}

#[test]
fn comparisons_follow_addresses() {
    let lo = ptr(100, 16, 104, 4);
    let hi = ptr(100, 16, 108, 4);
    assert_eq!(lo.cmp(hi), std::cmp::Ordering::Less);
    assert_eq!(hi.cmp(lo), std::cmp::Ordering::Greater);
    assert_eq!(lo.cmp(lo), std::cmp::Ordering::Equal);
    assert_eq!(lo.partial_cmp(hi), Some(std::cmp::Ordering::Less));
    assert!(lo.lt(hi));
    assert!(lo.le(hi));
    assert!(lo.le(lo));
    assert!(hi.gt(lo));
    assert!(hi.ge(hi));
    assert!(!lo.gt(hi));
}

#[test]
fn slice_pointer_reads_metadata() {
    let s = SlicePtr { ptr: ptr(200, 12, 200, 4), len: 3 };
    assert_eq!(s.len(), 3);
    assert_eq!(s.as_ptr(), s.ptr);
}

#[test]
fn to_raw_parts_splits_address_and_metadata() {
    let s = SlicePtr { ptr: ptr(200, 12, 200, 4), len: 3 };
    let (data, meta) = s.to_raw_parts();
    assert_eq!(data.addr, 200);
    assert_eq!(data.region, s.ptr.region);
    assert_eq!(data.elem_size, 0);
    assert_eq!(meta, 3);
}

#[test]
fn get_unchecked_addresses_the_element() {
    let s = SlicePtr { ptr: ptr(200, 12, 200, 4), len: 3 };
    let second = s.get_unchecked(1);
    assert_eq!(second.addr, 204);
    assert_eq!(second.region, s.ptr.region);
}

#[test]
fn set_ptr_value_keeps_metadata_and_takes_provenance() {
    let s = SlicePtr { ptr: ptr(200, 12, 200, 4), len: 3 };
    let other = ptr(400, 8, 400, 1);
    let moved = s.set_ptr_value(other);
    assert_eq!(moved.len, 3);
    assert_eq!(moved.ptr.addr, 400);
    assert_eq!(moved.ptr.region, other.region);
    assert_eq!(moved.ptr.elem_size, 4);
}
