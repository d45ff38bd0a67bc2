//! Field address computation: from a field descriptor and the base of an
//! owning value to the field itself.
//!
//! The address form takes the owner's base pointer and moves it by the
//! descriptor's byte offset, keeping the owner's provenance: the result
//! addresses the field and nothing else.  The byte form reads the field's
//! bytes out of a snapshot of the owning value, and its contract states the
//! round trip: offset-based access yields exactly the bytes that direct
//! access at the field's positions yields.  Neither form allocates beyond
//! its result or can fail at run time; staying inside a live owning value
//! is the caller's obligation, stated as a precondition.

use vstd::prelude::*;

verus! {

use crate::descriptor::FieldDescriptor;
use crate::erased::AnyFieldDescriptor;
use crate::ptr::Ptr;

/// The address of the field described by `Type` inside the owning value
/// that starts at `owner`: base address plus byte offset, reinterpreted at
/// the field's size, derived from the owner's region.
pub fn get_field<Type, const DECLARATION_INDEX: usize>(owner: Ptr, field_size: usize) -> (r: Ptr) where
    Type: FieldDescriptor<DECLARATION_INDEX>,

    requires
        owner.in_bounds(),
        Type::byte_offset_spec() <= isize::MAX,
        owner.region.contains(owner.addr + Type::byte_offset_spec()),
    ensures
        r.region == owner.region,
        r.addr == owner.addr + Type::byte_offset_spec(),
        r.elem_size == field_size,
        r.in_bounds(),
{
    let off: usize = Type::byte_offset();
    owner.cast(1).add(off).cast(field_size)
}

/// The address of the field described by `Type` inside the owning value
/// that starts at `owner`, for mutable access.  The address arithmetic is
/// the same as for shared access; only the use the caller may make of the
/// result differs.
pub fn get_field_mut<Type, const DECLARATION_INDEX: usize>(owner: Ptr, field_size: usize) -> (r:
    Ptr) where Type: FieldDescriptor<DECLARATION_INDEX>,

    requires
        owner.in_bounds(),
        Type::byte_offset_spec() <= isize::MAX,
        owner.region.contains(owner.addr + Type::byte_offset_spec()),
    ensures
        r.region == owner.region,
        r.addr == owner.addr + Type::byte_offset_spec(),
        r.elem_size == field_size,
        r.in_bounds(),
{
    let off: usize = Type::byte_offset();
    owner.cast(1).add(off).cast(field_size)
}

/// The address of the field described by an erased descriptor inside the
/// owning value that starts at `owner`.
pub fn field_pointer(owner: Ptr, field: &AnyFieldDescriptor, field_size: usize) -> (r: Ptr)
    requires
        owner.in_bounds(),
        field.byte_offset <= isize::MAX,
        owner.region.contains(owner.addr + field.byte_offset),
    ensures
        r.region == owner.region,
        r.addr == owner.addr + field.byte_offset,
        r.elem_size == field_size,
        r.in_bounds(),
{
    owner.cast(1).add(field.byte_offset).cast(field_size)
}

/// The field's value, read through its byte offset from a snapshot of the
/// owning value's bytes.  The result is exactly the slice of the owner's
/// bytes at the field's positions: access through the offset and direct
/// access agree.
pub fn field_bytes(data: &Vec<u8>, field: &AnyFieldDescriptor, field_size: usize) -> (r: Vec<u8>)
    requires
        field.byte_offset + field_size <= data@.len(),
    ensures
        r@ == data@.subrange(field.byte_offset as int, field.byte_offset + field_size),
{
    let n: usize = data.len();
    let mut out: Vec<u8> = Vec::new();
    let mut i: usize = 0;
    while i < field_size
        invariant
            i <= field_size,
            field.byte_offset + field_size <= n == data@.len(),
            out@ == data@.subrange(field.byte_offset as int, field.byte_offset + i),
        decreases field_size - i,
    {
        out.push(data[field.byte_offset + i]);
        proof {
            assert(out@ =~= data@.subrange(
                field.byte_offset as int,
                field.byte_offset + i + 1,
            ));
        }
        i = i + 1;
    }
    out
}

} // verus!
