//! A model of raw pointers that keeps provenance explicit.
//!
//! A pointer value is three pieces of information: the allocated region it
//! was derived from, the address it currently holds, and the size of the
//! element type it points at.  Keeping the region as data lets every
//! operation say precisely which addresses may be reached and which pointers
//! may be compared or subtracted, instead of leaving those rules as prose.

use vstd::prelude::*;

verus! {

use vstd::arithmetic::div_mod::{
    lemma_add_mod_noop, lemma_div_nonincreasing, lemma_fundamental_div_mod,
    lemma_fundamental_div_mod_converse_div, lemma_fundamental_div_mod_converse_mod,
    lemma_mod_add_multiples_vanish, lemma_mod_division_less_than_divisor,
    lemma_mod_multiples_basic, lemma_mod_self_0, lemma_small_mod, lemma_sub_mod_noop,
};
use vstd::arithmetic::mul::{
    lemma_mul_inequality, lemma_mul_is_commutative, lemma_mul_is_distributive_add_other_way,
    lemma_mul_nonnegative, lemma_mul_unary_negation,
};
use vstd::arithmetic::power2::is_pow2;

/// The allocated object a pointer is derived from: `len` bytes starting at
/// address `base`.  A pointer stays tied to its region however its address
/// is changed; only dereferences inside the region are meaningful.
#[derive(Clone, Copy, PartialEq, Eq, Structural, Debug)]
pub struct Region {
    /// Address of the first byte of the allocation.
    pub base: usize,
    /// Extent of the allocation in bytes.
    pub len: usize,
}

impl Region {
    /// The whole allocation, one-past-the-end address included, fits in the
    /// address space.
    pub open spec fn wf(self) -> bool {
        self.base + self.len <= usize::MAX
    }

    /// The one-past-the-end address of the allocation.
    pub open spec fn end(self) -> int {
        self.base + self.len
    }

    /// `addr` is in bounds of the allocation or one byte past its end.
    pub open spec fn contains(self, addr: int) -> bool {
        self.base <= addr <= self.end()
    }
}

/// A `*const T`/`*mut T` stand-in: an address, the region the pointer is
/// derived from, and the byte size of the element type `T`.
#[derive(Clone, Copy, PartialEq, Eq, Structural, Debug)]
pub struct Ptr {
    /// The allocated object this pointer may access.
    pub region: Region,
    /// The address the pointer currently holds.
    pub addr: usize,
    /// Size in bytes of the element type; offsets count in these units.
    pub elem_size: usize,
}

/// One more than the largest address: the modulus of wrapping address
/// arithmetic.
pub open spec fn addr_space() -> int {
    usize::MAX + 1
}

/// Reduces a mathematical address to the address space by wrapping.
pub open spec fn wrap_addr(a: int) -> usize {
    (a % addr_space()) as usize
}

impl Ptr {
    /// The pointer's address is in bounds of its region or one past the end,
    /// and the region itself is well formed.
    pub open spec fn in_bounds(self) -> bool {
        self.region.wf() && self.region.contains(self.addr as int)
    }

    /// The pointer `offset(count)` returns: the same region and element
    /// size, with the address moved by `count` elements.
    pub open spec fn offset_spec(self, count: int) -> Ptr {
        Ptr { addr: (self.addr + count * self.elem_size) as usize, ..self }
    }

    /// The pointer `wrapping_offset(count)` returns: the address moves by
    /// `count` elements with wraparound, and the provenance is kept.
    pub open spec fn wrapping_offset_spec(self, count: int) -> Ptr {
        Ptr { addr: wrap_addr(self.addr + count * self.elem_size), ..self }
    }

    /// The element distance from `origin` to `self`.
    pub open spec fn offset_from_spec(self, origin: Ptr) -> int {
        (self.addr - origin.addr) / (self.elem_size as int)
    }

    /// The null pointer: address zero, derived from no allocation.
    pub fn null(elem_size: usize) -> (r: Ptr)
        ensures
            r.addr == 0,
            r.region == (Region { base: 0, len: 0 }),
            r.elem_size == elem_size,
    {
        Ptr { region: Region { base: 0, len: 0 }, addr: 0, elem_size }
    }

    /// Whether the pointer is null; only the address matters.
    pub fn is_null(self) -> (r: bool)
        ensures
            r == (self.addr == 0),
    {
        self.cast(1).guaranteed_eq(Ptr::null(1))
    }

    /// Reinterprets the pointer as pointing at elements of another size;
    /// address and provenance are unchanged.
    pub fn cast(self, elem_size: usize) -> (r: Ptr)
        ensures
            r.region == self.region,
            r.addr == self.addr,
            r.elem_size == elem_size,
    {
        Ptr { elem_size, ..self }
    }

    /// Changes constness without changing the pointer: mutability is a
    /// type-level matter and leaves the value untouched.
    pub fn as_mut(self) -> (r: Ptr)
        ensures
            r == self,
    {
        self
    }

    /// Makes a pointer from a bare address.  Nothing is known about where
    /// the address came from, so the pointer carries an empty region: no
    /// byte is reachable through it.
    pub fn from_bits(bits: usize, elem_size: usize) -> (r: Ptr)
        ensures
            r.addr == bits,
            r.region == (Region { base: bits, len: 0 }),
            r.elem_size == elem_size,
    {
        Ptr { region: Region { base: bits, len: 0 }, addr: bits, elem_size }
    }

    /// The address portion of the pointer.
    pub fn addr(self) -> (r: usize)
        ensures
            r == self.addr,
    {
        self.addr
    }

    /// A pointer at the given address with the provenance of `self`: the
    /// region is kept, exactly as if a wrapping offset had moved the address.
    pub fn with_addr(self, addr: usize) -> (r: Ptr)
        ensures
            r.region == self.region,
            r.addr == addr,
            r.elem_size == self.elem_size,
    {
        Ptr { addr, ..self }
    }

    /// Whether two pointers of the same element type are equal.  A `true`
    /// result is binding: the addresses are the same.
    pub fn guaranteed_eq(self, other: Ptr) -> (r: bool)
        requires
            self.elem_size == other.elem_size,
        ensures
            r == (self.addr == other.addr),
            self == other ==> r,
            r ==> self.addr == other.addr,
    {
        self.addr == other.addr
    }

    /// Whether two pointers of the same element type are unequal.  A `true`
    /// result is binding: the addresses differ.
    pub fn guaranteed_ne(self, other: Ptr) -> (r: bool)
        requires
            self.elem_size == other.elem_size,
        ensures
            r == (self.addr != other.addr),
    {
        self.addr != other.addr
    }

    /// Total order on pointers of one element type, by address.
    pub fn cmp(self, other: Ptr) -> (r: core::cmp::Ordering)
        requires
            self.elem_size == other.elem_size,
        ensures
            r == core::cmp::Ordering::Less <==> self.addr < other.addr,
            r == core::cmp::Ordering::Equal <==> self.addr == other.addr,
            r == core::cmp::Ordering::Greater <==> self.addr > other.addr,
    {
        if self.addr < other.addr {
            core::cmp::Ordering::Less
        } else if self.addr == other.addr {
            core::cmp::Ordering::Equal
        } else {
            core::cmp::Ordering::Greater
        }
    }

    /// The order of two pointers of one element type; pointer comparison is
    /// total, so the result is always `Some`.
    pub fn partial_cmp(self, other: Ptr) -> (r: Option<core::cmp::Ordering>)
        requires
            self.elem_size == other.elem_size,
        ensures
            r == Some(self.cmp_spec(other)),
    {
        Some(self.cmp(other))
    }

    /// What `cmp` returns, as a specification value.
    pub open spec fn cmp_spec(self, other: Ptr) -> core::cmp::Ordering {
        if self.addr < other.addr {
            core::cmp::Ordering::Less
        } else if self.addr == other.addr {
            core::cmp::Ordering::Equal
        } else {
            core::cmp::Ordering::Greater
        }
    }

    /// Address order: strictly below.
    pub fn lt(self, other: Ptr) -> (r: bool)
        requires
            self.elem_size == other.elem_size,
        ensures
            r == (self.addr < other.addr),
    {
        self.addr < other.addr
    }

    /// Address order: below or equal.
    pub fn le(self, other: Ptr) -> (r: bool)
        requires
            self.elem_size == other.elem_size,
        ensures
            r == (self.addr <= other.addr),
    {
        self.addr <= other.addr
    }

    /// Address order: strictly above.
    pub fn gt(self, other: Ptr) -> (r: bool)
        requires
            self.elem_size == other.elem_size,
        ensures
            r == (self.addr > other.addr),
    {
        self.addr > other.addr
    }

    /// Address order: above or equal.
    pub fn ge(self, other: Ptr) -> (r: bool)
        requires
            self.elem_size == other.elem_size,
        ensures
            r == (self.addr >= other.addr),
    {
        self.addr >= other.addr
    }

    /// Moves the pointer by `count` elements.  Both the starting and the
    /// resulting address must lie in the pointer's region (one past the end
    /// included) and the byte distance must fit a signed machine word; under
    /// those conditions the result is exact, with provenance kept.
    pub fn offset(self, count: isize) -> (r: Ptr)
        requires
            self.in_bounds(),
            isize::MIN <= count * self.elem_size <= isize::MAX,
            self.region.contains(self.addr + count * self.elem_size),
        ensures
            r == self.offset_spec(count as int),
            r.in_bounds(),
    {
        if count >= 0 {
            let delta: usize = (count as usize) * self.elem_size;
            Ptr { addr: self.addr + delta, ..self }
        } else {
            let wide: i128 = -(count as i128);
            let mag: usize = wide as usize;
            proof {
                lemma_mul_unary_negation(count as int, self.elem_size as int);
            }
            let delta: usize = mag * self.elem_size;
            Ptr { addr: self.addr - delta, ..self }
        }
    }

    /// Moves the pointer forward by `count` elements; shorthand for an
    /// `offset` with a non-negative count.
    pub fn add(self, count: usize) -> (r: Ptr)
        requires
            self.in_bounds(),
            count * self.elem_size <= isize::MAX,
            self.region.contains(self.addr + count * self.elem_size),
        ensures
            r == self.offset_spec(count as int),
            r.in_bounds(),
    {
        let delta: usize = count * self.elem_size;
        Ptr { addr: self.addr + delta, ..self }
    }

    /// Moves the pointer backward by `count` elements; shorthand for an
    /// `offset` with a negated count.
    pub fn sub(self, count: usize) -> (r: Ptr)
        requires
            self.in_bounds(),
            count * self.elem_size <= isize::MAX,
            self.region.contains(self.addr - count * self.elem_size),
        ensures
            r == self.offset_spec(-(count as int)),
            r.in_bounds(),
    {
        proof {
            lemma_mul_unary_negation(count as int, self.elem_size as int);
        }
        let delta: usize = count * self.elem_size;
        Ptr { addr: self.addr - delta, ..self }
    }

    /// Moves the pointer by `count` elements with wraparound.  The
    /// computation is always defined; the result stays tied to the region of
    /// `self`, whatever address it now holds.
    pub fn wrapping_offset(self, count: isize) -> (r: Ptr)
        ensures
            r == self.wrapping_offset_spec(count as int),
    {
        if count >= 0 {
            let a: usize = wrap_forward(self.addr, count as usize, self.elem_size);
            Ptr { addr: a, ..self }
        } else {
            let wide: i128 = -(count as i128);
            let mag: usize = wide as usize;
            let a: usize = wrap_backward(self.addr, mag, self.elem_size);
            proof {
                lemma_mul_unary_negation(count as int, self.elem_size as int);
            }
            Ptr { addr: a, ..self }
        }
    }

    /// Moves the pointer forward by `count` elements with wraparound.
    pub fn wrapping_add(self, count: usize) -> (r: Ptr)
        ensures
            r == self.wrapping_offset_spec(count as int),
    {
        let a: usize = wrap_forward(self.addr, count, self.elem_size);
        Ptr { addr: a, ..self }
    }

    /// Moves the pointer backward by `count` elements with wraparound.
    pub fn wrapping_sub(self, count: usize) -> (r: Ptr)
        ensures
            r == self.wrapping_offset_spec(-(count as int)),
    {
        let a: usize = wrap_backward(self.addr, count, self.elem_size);
        proof {
            lemma_mul_unary_negation(count as int, self.elem_size as int);
        }
        Ptr { addr: a, ..self }
    }

    /// The count of elements to advance so that the pointer's address
    /// becomes a multiple of `align`, which must be a power of two.  When no
    /// whole count of elements reaches an aligned address, the result is the
    /// sentinel `usize::MAX`: the caller falls back to an unaligned-safe
    /// path, never treats it as an error.
    pub open spec fn align_offset_spec(self, align: usize) -> usize {
        let need = (align - self.addr % align) % (align as int);
        if self.elem_size > 0 && need % (self.elem_size as int) == 0 {
            (need / (self.elem_size as int)) as usize
        } else {
            usize::MAX
        }
    }

    /// Computes `align_offset_spec`; a non-sentinel result really does align
    /// the address.
    pub fn align_offset(self, align: usize) -> (r: usize)
        requires
            is_pow2(align as int),
        ensures
            r == self.align_offset_spec(align),
            r != usize::MAX ==> (self.addr + r * self.elem_size) % (align as int) == 0,
            r != usize::MAX ==> r * self.elem_size < align,
    {
        proof {
            lemma_pow2_pos(align as int);
        }
        let rem: usize = self.addr % align;
        let need: usize = if rem == 0 {
            0
        } else {
            align - rem
        };
        proof {
            lemma_mod_self_0(align as int);
            lemma_small_mod(need as nat, align as nat);
            lemma_mod_division_less_than_divisor(self.addr as int, align as int);
        }
        if self.elem_size > 0 && need % self.elem_size == 0 {
            let r: usize = need / self.elem_size;
            proof {
                let e: int = self.elem_size as int;
                let al: int = align as int;
                let q: int = (self.addr as int) / al;
                lemma_div_exact_signs(need as int, e);
                lemma_div_nonincreasing(need as int, e);
                assert(r * e == need);
                // the address plus `need` bytes is the next multiple of `align`
                lemma_fundamental_div_mod(self.addr as int, al);
                lemma_mul_is_commutative(al, q);
                if rem == 0 {
                    assert(self.addr + r * e == q * al);
                    lemma_mod_multiples_basic(q, al);
                } else {
                    lemma_mul_is_distributive_add_other_way(al, q, 1);
                    assert(self.addr + r * e == (q + 1) * al);
                    lemma_mod_multiples_basic(q + 1, al);
                }
            }
            r
        } else {
            usize::MAX
        }
    }

    /// The distance in elements from `origin` to `self`: the exact inverse
    /// of `offset`.  Both pointers must be derived from the same region, the
    /// byte distance must be an exact multiple of the element size and fit a
    /// signed machine word, and the element type must not be zero-sized.
    pub fn offset_from(self, origin: Ptr) -> (r: isize)
        requires
            self.elem_size == origin.elem_size,
            0 < self.elem_size <= isize::MAX,
            self.region == origin.region,
            self.in_bounds(),
            origin.in_bounds(),
            (self.addr - origin.addr) % (self.elem_size as int) == 0,
            isize::MIN <= self.addr - origin.addr <= isize::MAX,
        ensures
            r == self.offset_from_spec(origin),
            r * self.elem_size == self.addr - origin.addr,
    {
        let ghost diff: int = self.addr - origin.addr;
        let ghost e: int = self.elem_size as int;
        proof {
            lemma_div_exact_signs(diff, e);
        }
        if self.addr >= origin.addr {
            let d: usize = (self.addr - origin.addr) / self.elem_size;
            proof {
                lemma_div_nonincreasing(diff, e);
            }
            d as isize
        } else {
            let d: usize = (origin.addr - self.addr) / self.elem_size;
            let lim: usize = isize::MAX as usize;
            proof {
                assert(d == (-diff) / e);
                assert(d * e == -diff) by {
                    lemma_div_exact_signs(-diff, e);
                };
            }
            if d <= lim {
                -(d as isize)
            } else {
                // the distance is one more than the largest signed word, which
                // can only happen at element size one
                proof {
                    assert(d == lim + 1) by (nonlinear_arith)
                        requires
                            d * e == -diff,
                            -diff <= lim + 1,
                            d > lim,
                            e >= 1,
                    ;
                }
                isize::MIN
            }
        }
    }
}

/// A `*const [T]` stand-in: a fat pointer made of a data pointer and the
/// element count it carries as metadata.
#[derive(Clone, Copy, PartialEq, Eq, Structural, Debug)]
pub struct SlicePtr {
    /// Pointer to the first element of the slice.
    pub ptr: Ptr,
    /// Number of elements, carried as pointer metadata.
    pub len: usize,
}

impl SlicePtr {
    /// The length of the raw slice, in elements.  Safe whatever the data
    /// pointer holds: only the metadata is read.
    pub fn len(self) -> (r: usize)
        ensures
            r == self.len,
    {
        self.len
    }

    /// The slice's data pointer, with the metadata dropped.
    pub fn as_ptr(self) -> (r: Ptr)
        ensures
            r == self.ptr,
    {
        self.ptr
    }

    /// Decomposes the fat pointer into its address component, seen as a
    /// pointer to an opaque unit, and its metadata.
    pub fn to_raw_parts(self) -> (r: (Ptr, usize))
        ensures
            r.0.region == self.ptr.region,
            r.0.addr == self.ptr.addr,
            r.0.elem_size == 0,
            r.1 == self.len,
    {
        (self.ptr.cast(0), self.len)
    }

    /// A pointer to the element at `index`, without a bounds check at run
    /// time: the index must be in bounds of the slice, and the whole slice
    /// must lie in the pointer's region.
    pub fn get_unchecked(self, index: usize) -> (r: Ptr)
        requires
            self.ptr.in_bounds(),
            index <= self.len,
            self.len * self.ptr.elem_size <= isize::MAX,
            self.ptr.region.contains(self.ptr.addr + self.len * self.ptr.elem_size),
        ensures
            r == self.ptr.offset_spec(index as int),
            r.in_bounds(),
    {
        proof {
            lemma_mul_inequality(index as int, self.len as int, self.ptr.elem_size as int);
            lemma_mul_nonnegative(index as int, self.ptr.elem_size as int);
        }
        self.ptr.add(index)
    }

    /// Replaces the data pointer, keeping the metadata: the result has the
    /// address and provenance of `val` and the length and element size of
    /// `self`.
    pub fn set_ptr_value(self, val: Ptr) -> (r: SlicePtr)
        ensures
            r.ptr.region == val.region,
            r.ptr.addr == val.addr,
            r.ptr.elem_size == self.ptr.elem_size,
            r.len == self.len,
    {
        SlicePtr { ptr: val.cast(self.ptr.elem_size), len: self.len }
    }
}

/// The address `count * size` bytes above `addr`, wrapped to the address
/// space.
fn wrap_forward(addr: usize, count: usize, size: usize) -> (r: usize)
    ensures
        r == wrap_addr(addr + count * size),
{
    let delta: usize = count.wrapping_mul(size);
    let r: usize = addr.wrapping_add(delta);
    proof {
        let m: int = addr_space();
        lemma_reduce_once(addr + delta, m);
        lemma_small_mod(addr as nat, m as nat);
        lemma_add_mod_noop(addr as int, count * size, m);
        lemma_reduce_once(count * size, m);
    }
    r
}

/// The address `count * size` bytes below `addr`, wrapped to the address
/// space.
fn wrap_backward(addr: usize, count: usize, size: usize) -> (r: usize)
    ensures
        r == wrap_addr(addr - count * size),
{
    let delta: usize = count.wrapping_mul(size);
    let r: usize = addr.wrapping_sub(delta);
    proof {
        let m: int = addr_space();
        lemma_reduce_once(addr - delta, m);
        lemma_small_mod(addr as nat, m as nat);
        lemma_sub_mod_noop(addr as int, count * size, m);
        lemma_reduce_once(count * size, m);
    }
    r
}

/// Reduction of a value less than one modulus away from its residue class
/// representative: one addition or subtraction of `m` is enough.
proof fn lemma_reduce_once(v: int, m: int)
    requires
        0 < m,
        -m < v,
    ensures
        0 <= v < m ==> v % m == v,
        m <= v < 2 * m ==> v % m == v - m,
        v < 0 ==> v % m == v + m,
{
    if 0 <= v < m {
        lemma_small_mod(v as nat, m as nat);
    } else if m <= v < 2 * m {
        lemma_mod_add_multiples_vanish(v - m, m);
        lemma_small_mod((v - m) as nat, m as nat);
    } else if v < 0 {
        lemma_mod_add_multiples_vanish(v, m);
        lemma_small_mod((v + m) as nat, m as nat);
    }
}

/// Distance computation is the exact inverse of offsetting: a pointer moved
/// by `count` elements lies at element distance `count` from where it
/// started.
pub proof fn lemma_offset_from_inverts_offset(p: Ptr, count: int)
    requires
        p.elem_size > 0,
        p.in_bounds(),
        p.region.contains(p.addr + count * p.elem_size),
    ensures
        p.offset_spec(count).offset_from_spec(p) == count,
{
    lemma_mul_is_commutative(count, p.elem_size as int);
    vstd::arithmetic::div_mod::lemma_div_multiples_vanish(count, p.elem_size as int);
}

/// Offsetting by zero elements is a no-op: the resulting pointer is the
/// original, region, address and element size alike.
pub proof fn lemma_offset_zero_is_noop(p: Ptr)
    requires
        p.in_bounds(),
    ensures
        p.offset_spec(0) == p,
{
}

/// Wrapping-offsetting by zero elements is a no-op, for any pointer at all.
pub proof fn lemma_wrapping_offset_zero_is_noop(p: Ptr)
    ensures
        p.wrapping_offset_spec(0) == p,
{
    lemma_small_mod(p.addr as nat, addr_space() as nat);
}

/// Leaving the region and re-entering it later is permitted: a wrapping
/// move by `count` elements followed by one by `-count` lands on the
/// original pointer, wherever the intermediate address fell.
pub proof fn lemma_wrapping_offset_round_trip(p: Ptr, count: int)
    ensures
        p.wrapping_offset_spec(count).wrapping_offset_spec(-count) == p,
{
    let m: int = addr_space();
    let d: int = count * p.elem_size;
    let w: int = wrap_addr(p.addr + d) as int;
    lemma_mul_unary_negation(count, p.elem_size as int);
    lemma_small_mod(w as nat, m as nat);
    lemma_sub_mod_noop(w, d, m);
    lemma_sub_mod_noop(p.addr + d, d, m);
    lemma_small_mod(p.addr as nat, m as nat);
}

/// Changing the address is the same as a wrapping byte-level move: seen as
/// a byte pointer, the pointer moved by the byte difference lands exactly
/// at the requested address, with the provenance kept.
pub proof fn lemma_with_addr_is_wrapping_move(p: Ptr, addr: usize)
    ensures
        (Ptr { elem_size: 1, ..p }).wrapping_offset_spec(addr - p.addr) == (Ptr {
            region: p.region,
            addr,
            elem_size: 1,
        }),
{
    lemma_small_mod(addr as nat, addr_space() as nat);
}

/// A power of two is at least one.
proof fn lemma_pow2_pos(n: int)
    requires
        is_pow2(n),
    ensures
        n >= 1,
{
    reveal(is_pow2);
}

/// For an exact multiple `a` of a positive `b`, division recovers the
/// cofactor exactly, for `a` and for its negation.
proof fn lemma_div_exact_signs(a: int, b: int)
    requires
        0 < b,
        a % b == 0,
    ensures
        (a / b) * b == a,
        (-a) / b == -(a / b),
        (-a) % b == 0,
{
    lemma_fundamental_div_mod(a, b);
    lemma_mul_is_commutative(b, a / b);
    lemma_mul_unary_negation(a / b, b);
    lemma_fundamental_div_mod_converse_div(-a, b, -(a / b), 0);
    lemma_fundamental_div_mod_converse_mod(-a, b, -(a / b), 0);
}

} // verus!
