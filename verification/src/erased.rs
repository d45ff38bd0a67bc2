//! Owned, type-erased mirrors of the descriptor shapes.
//!
//! Every entity here trades the compile-time guarantee for erasure: a
//! type-identity token stands in for the generic type parameter, and the
//! child descriptors are held as owned lists.  Well-formedness captures the
//! descriptor invariants as data: children restate the owner's token, each
//! child sits at its own declaration index, discriminants are unique among
//! the variants of one enumeration, and so are the integer values of the
//! variants that have one.

use vstd::prelude::*;

verus! {

use crate::descriptor::{AttributeDescriptor, Discriminant, TypeToken};

/// A run-time description of one field of a structure, union or variant.
#[derive(Clone, Debug)]
pub struct AnyFieldDescriptor {
    /// The type that owns the field; byte offsets count from the base of a
    /// value of that type.
    pub owner_type: TypeToken,
    /// The type of the field itself.
    pub type_id: TypeToken,
    /// The zero-based declaration index of the field.
    pub declaration_index: usize,
    /// The field's name; empty for a completely unnamed field, the access
    /// literal for a tuple-style field.
    pub name: String,
    /// The byte offset from the base of the owning type to the field.
    pub byte_offset: usize,
    /// The metadata entries exposed for introspection.
    pub attributes: Vec<AttributeDescriptor>,
}

impl AnyFieldDescriptor {
    /// The field descriptor belongs at position `index` under `owner`.
    pub open spec fn wf_at(self, owner: TypeToken, index: int) -> bool {
        self.owner_type == owner && self.declaration_index == index
    }
}

/// Every field descriptor of the list restates `owner` and sits at its own
/// declaration index.
pub open spec fn field_list_wf(owner: TypeToken, fs: Seq<AnyFieldDescriptor>) -> bool {
    forall|i: int| 0 <= i < fs.len() ==> (#[trigger] fs[i]).wf_at(owner, i)
}

/// A run-time description of one variant of an enumeration.
#[derive(Clone, Debug)]
pub struct AnyVariantDescriptor {
    /// The enumeration that owns the variant.
    pub owner_type: TypeToken,
    /// The zero-based declaration index of the variant.
    pub declaration_index: usize,
    /// The variant's name.
    pub name: String,
    /// The variant's fields.  `None` marks a variant declared without any
    /// field list at all; a variant with an explicit empty field tuple
    /// carries a real, empty list instead.
    pub fields: Option<Vec<AnyFieldDescriptor>>,
    /// The tag that identifies this variant at run time.
    pub discriminant: Discriminant,
    /// The variant's value under a fixed integer representation; `None`
    /// both when the enumeration has no such representation and when this
    /// variant's value is not known.
    pub integer_value: Option<i128>,
    /// The metadata entries exposed for introspection.
    pub attributes: Vec<AttributeDescriptor>,
}

impl AnyVariantDescriptor {
    /// Whatever fields the variant carries restate its owner and sit at
    /// their own declaration indices.
    pub open spec fn fields_wf(self) -> bool {
        match self.fields {
            Some(fs) => field_list_wf(self.owner_type, fs@),
            None => true,
        }
    }

    /// The variant descriptor belongs at position `index` under `owner`.
    pub open spec fn wf_at(self, owner: TypeToken, index: int) -> bool {
        &&& self.owner_type == owner
        &&& self.declaration_index == index
        &&& self.discriminant.owner == owner
        &&& self.fields_wf()
    }

    /// How many fields the variant carries; zero both for a missing field
    /// list and for an empty one.
    pub open spec fn field_count_spec(self) -> nat {
        match self.fields {
            Some(fs) => fs@.len(),
            None => 0,
        }
    }

    /// The number of fields of the variant.
    pub fn field_count(&self) -> (n: usize)
        ensures
            n == self.field_count_spec(),
    {
        match &self.fields {
            Some(fs) => fs.len(),
            None => 0,
        }
    }

    /// Whether the variant carries a field list at all: `false` for a
    /// unit-like variant, `true` even for an explicit empty field tuple.
    pub fn has_field_list(&self) -> (b: bool)
        ensures
            b == (self.fields is Some),
    {
        match &self.fields {
            Some(_) => true,
            None => false,
        }
    }
}

/// A run-time description of a structure or union type.
#[derive(Clone, Debug)]
pub struct AnyStructDescriptor {
    /// The type that was described.
    pub type_id: TypeToken,
    /// One descriptor per field, in declaration order.
    pub fields: Vec<AnyFieldDescriptor>,
}

impl AnyStructDescriptor {
    /// Every field restates the owner's token and sits at its own
    /// declaration index.
    pub open spec fn wf(self) -> bool {
        field_list_wf(self.type_id, self.fields@)
    }

    /// The number of field descriptors, which is the type's field count.
    pub fn field_count(&self) -> (n: usize)
        ensures
            n == self.fields@.len(),
    {
        self.fields.len()
    }

    /// Checks well-formedness of the data at run time.
    pub fn is_well_formed(&self) -> (b: bool)
        ensures
            b == self.wf(),
    {
        let mut i: usize = 0;
        while i < self.fields.len()
            invariant
                i <= self.fields@.len(),
                forall|j: int|
                    0 <= j < i ==> (#[trigger] self.fields@[j]).wf_at(self.type_id, j),
            decreases self.fields@.len() - i,
        {
            let f = &self.fields[i];
            if !(f.owner_type == self.type_id && f.declaration_index == i) {
                return false;
            }
            i = i + 1;
        }
        true
    }
}

/// A run-time description of an enumeration type.
#[derive(Clone, Debug)]
pub struct AnyEnumDescriptor {
    /// The type that was described.
    pub type_id: TypeToken,
    /// One descriptor per variant, in declaration order.
    pub variants: Vec<AnyVariantDescriptor>,
}

impl AnyEnumDescriptor {
    /// Every variant is well formed at its position, no two variants share
    /// a discriminant tag, and no two variants share a present integer
    /// value.  The discriminant invariant is what makes the tag of a live
    /// value identify exactly one variant.
    pub open spec fn wf(self) -> bool {
        &&& forall|i: int|
            0 <= i < self.variants@.len() ==> (#[trigger] self.variants@[i]).wf_at(
                self.type_id,
                i,
            )
        &&& forall|i: int, j: int|
            0 <= i < self.variants@.len() && 0 <= j < self.variants@.len() && i != j
                ==> (#[trigger] self.variants@[i]).discriminant.tag
                != (#[trigger] self.variants@[j]).discriminant.tag
        &&& forall|i: int, j: int|
            0 <= i < self.variants@.len() && 0 <= j < self.variants@.len() && i != j
                && self.variants@[i].integer_value is Some
                ==> (#[trigger] self.variants@[i]).integer_value
                != (#[trigger] self.variants@[j]).integer_value
    }

    /// The number of variant descriptors, which is the type's variant
    /// count.
    pub fn variant_count(&self) -> (n: usize)
        ensures
            n == self.variants@.len(),
    {
        self.variants.len()
    }

    /// Checks well-formedness of the data at run time: positions, owner
    /// tokens, the field lists of the variants, and uniqueness of
    /// discriminant tags and of present integer values.
    pub fn is_well_formed(&self) -> (b: bool)
        ensures
            b == self.wf(),
    {
        let n: usize = self.variants.len();
        let mut i: usize = 0;
        while i < n
            invariant
                n == self.variants@.len(),
                i <= n,
                forall|k: int|
                    0 <= k < i ==> (#[trigger] self.variants@[k]).wf_at(self.type_id, k),
                forall|k: int, l: int|
                    0 <= k < i && 0 <= l < i && k != l
                        ==> (#[trigger] self.variants@[k]).discriminant.tag
                        != (#[trigger] self.variants@[l]).discriminant.tag,
                forall|k: int, l: int|
                    0 <= k < i && 0 <= l < i && k != l && self.variants@[k].integer_value is Some
                        ==> (#[trigger] self.variants@[k]).integer_value
                        != (#[trigger] self.variants@[l]).integer_value,
            decreases n - i,
        {
            let v = &self.variants[i];
            if !(v.owner_type == self.type_id && v.declaration_index == i
                && v.discriminant.owner == self.type_id) {
                return false;
            }
            match &v.fields {
                Some(fs) => {
                    let mut k: usize = 0;
                    while k < fs.len()
                        invariant
                            k <= fs@.len(),
                            *v == self.variants@[i as int],
                            0 <= i < self.variants@.len(),
                            v.fields == Some(*fs),
                            forall|m: int|
                                0 <= m < k ==> (#[trigger] fs@[m]).wf_at(v.owner_type, m),
                        decreases fs@.len() - k,
                    {
                        let f = &fs[k];
                        if !(f.owner_type == v.owner_type && f.declaration_index == k) {
                            proof {
                                lemma_field_list_not_wf(v.owner_type, fs@, k as int);
                                assert(!v.fields_wf());
                            }
                            return false;
                        }
                        k = k + 1;
                    }
                },
                None => (),
            }
            let mut j: usize = 0;
            while j < i
                invariant
                    i < n == self.variants@.len(),
                    j <= i,
                    *v == self.variants@[i as int],
                    forall|l: int|
                        0 <= l < j ==> (#[trigger] self.variants@[l]).discriminant.tag
                            != v.discriminant.tag,
                    forall|l: int|
                        0 <= l < j && (#[trigger] self.variants@[l]).integer_value is Some
                            && v.integer_value is Some ==> self.variants@[l].integer_value
                            != v.integer_value,
                decreases i - j,
            {
                let w = &self.variants[j];
                if w.discriminant.tag == v.discriminant.tag {
                    return false;
                }
                match (&w.integer_value, &v.integer_value) {
                    (Some(a), Some(b)) => if *a == *b {
                        return false;
                    },
                    _ => (),
                }
                j = j + 1;
            }
            i = i + 1;
        }
        true
    }

    /// The position of the variant that the given tag identifies: `Some`
    /// exactly when some variant carries the discriminant, `None` when none
    /// does.
    pub fn find_variant_by_discriminant(&self, d: Discriminant) -> (r: Option<usize>)
        ensures
            match r {
                Some(i) => i < self.variants@.len() && self.variants@[i as int].discriminant
                    == d,
                None => forall|i: int|
                    0 <= i < self.variants@.len() ==> (#[trigger] self.variants@[i]).discriminant
                        != d,
            },
    {
        let mut i: usize = 0;
        while i < self.variants.len()
            invariant
                i <= self.variants@.len(),
                forall|j: int|
                    0 <= j < i ==> (#[trigger] self.variants@[j]).discriminant != d,
            decreases self.variants@.len() - i,
        {
            if self.variants[i].discriminant == d {
                return Some(i);
            }
            i = i + 1;
        }
        None
    }

    /// The position of the variant whose fixed-representation integer value
    /// is `v`: `Some` exactly when some variant carries that value, `None`
    /// when none does.
    pub fn find_variant_by_integer_value(&self, v: i128) -> (r: Option<usize>)
        ensures
            match r {
                Some(i) => i < self.variants@.len() && self.variants@[i as int].integer_value
                    == Some(v),
                None => forall|i: int|
                    0 <= i < self.variants@.len() ==> (#[trigger] self.variants@[i]).integer_value
                        != Some(v),
            },
    {
        let mut i: usize = 0;
        while i < self.variants.len()
            invariant
                i <= self.variants@.len(),
                forall|j: int|
                    0 <= j < i ==> (#[trigger] self.variants@[j]).integer_value != Some(v),
            decreases self.variants@.len() - i,
        {
            match &self.variants[i].integer_value {
                Some(w) => if *w == v {
                    return Some(i);
                },
                None => (),
            }
            i = i + 1;
        }
        None
    }
}

/// A run-time description of one formal parameter of a function.
#[derive(Clone, Debug)]
pub struct AnyParameterDescriptor {
    /// The function this parameter belongs to.
    pub owner_type: TypeToken,
    /// The type of the parameter.
    pub type_id: TypeToken,
    /// The zero-based declaration index of the parameter.
    pub parameter_index: usize,
    /// The parameter's name; empty under a destructuring pattern.
    pub name: String,
    /// The metadata entries exposed for introspection.
    pub attributes: Vec<AttributeDescriptor>,
}

impl AnyParameterDescriptor {
    /// The parameter descriptor belongs at position `index` under `owner`.
    pub open spec fn wf_at(self, owner: TypeToken, index: int) -> bool {
        self.owner_type == owner && self.parameter_index == index
    }
}

/// Every parameter descriptor of the list restates `owner` and sits at its
/// own declaration index.
pub open spec fn parameter_list_wf(owner: TypeToken, ps: Seq<AnyParameterDescriptor>) -> bool {
    forall|i: int| 0 <= i < ps.len() ==> (#[trigger] ps[i]).wf_at(owner, i)
}

/// A run-time description of a function definition or similar construct.
#[derive(Clone, Debug)]
pub struct AnyFunctionDescriptor {
    /// The function type that was described.
    pub type_id: TypeToken,
    /// A description of the function's return type.
    pub return_type: AnyStructDescriptor,
    /// One descriptor per parameter, in declaration order.
    pub parameters: Vec<AnyParameterDescriptor>,
}

impl AnyFunctionDescriptor {
    /// Every parameter restates the owner's token and sits at its own
    /// declaration index, and the return type's description is itself well
    /// formed.
    pub open spec fn wf(self) -> bool {
        self.return_type.wf() && parameter_list_wf(self.type_id, self.parameters@)
    }

    /// The number of parameter descriptors, which is the function's
    /// parameter count.
    pub fn parameter_count(&self) -> (n: usize)
        ensures
            n == self.parameters@.len(),
    {
        self.parameters.len()
    }

    /// Checks well-formedness of the data at run time.
    pub fn is_well_formed(&self) -> (b: bool)
        ensures
            b == self.wf(),
    {
        if !self.return_type.is_well_formed() {
            return false;
        }
        let mut i: usize = 0;
        while i < self.parameters.len()
            invariant
                i <= self.parameters@.len(),
                self.return_type.wf(),
                forall|j: int|
                    0 <= j < i ==> (#[trigger] self.parameters@[j]).wf_at(self.type_id, j),
            decreases self.parameters@.len() - i,
        {
            let p = &self.parameters[i];
            if !(p.owner_type == self.type_id && p.parameter_index == i) {
                return false;
            }
            i = i + 1;
        }
        true
    }
}

/// A field list with one misplaced descriptor is not well formed.
proof fn lemma_field_list_not_wf(owner: TypeToken, fs: Seq<AnyFieldDescriptor>, k: int)
    requires
        0 <= k < fs.len(),
        !fs[k].wf_at(owner, k),
    ensures
        !field_list_wf(owner, fs),
{
    if field_list_wf(owner, fs) {
        assert(fs[k].wf_at(owner, k));
    }
}

/// In a well-formed structure description, the descriptor at every position
/// restates that position as its declaration index.
pub proof fn lemma_field_indices_match_positions(d: AnyStructDescriptor)
    requires
        d.wf(),
    ensures
        forall|i: int|
            0 <= i < d.fields@.len() ==> (#[trigger] d.fields@[i]).declaration_index == i,
{
}

/// In a well-formed enumeration description, a discriminant identifies at
/// most one variant: two positions carrying the same tag are the same
/// position.
pub proof fn lemma_discriminant_determines_variant(e: AnyEnumDescriptor, i: int, j: int)
    requires
        e.wf(),
        0 <= i < e.variants@.len(),
        0 <= j < e.variants@.len(),
        e.variants@[i].discriminant == e.variants@[j].discriminant,
    ensures
        i == j,
{
    if i != j {
        assert(e.variants@[i].discriminant.tag != e.variants@[j].discriminant.tag);
    }
}

/// In a well-formed enumeration description, a present fixed-representation
/// integer value identifies at most one variant: two positions carrying the
/// same present value are the same position.
pub proof fn lemma_integer_value_determines_variant(e: AnyEnumDescriptor, i: int, j: int, v: i128)
    requires
        e.wf(),
        0 <= i < e.variants@.len(),
        0 <= j < e.variants@.len(),
        e.variants@[i].integer_value == Some(v),
        e.variants@[j].integer_value == Some(v),
    ensures
        i == j,
{
}

} // verus!
