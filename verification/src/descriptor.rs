//! Descriptor contracts: what a type must expose, as compile-time
//! constants, to be reflectable.
//!
//! Each trait describes one shape of entity — an aggregate as a whole, a
//! struct, an enum, a function, or one field, variant or parameter of one.
//! The constants are stated twice: once as a specification function, so that
//! contracts elsewhere can speak about them, and once as an executable
//! getter whose postcondition ties it to the specification.  A descriptor
//! parameterized by a declaration index must prove that the index it reports
//! equals its index parameter, so a descriptor whose stored position
//! disagrees with its type-level position is rejected outright.

use vstd::prelude::*;

verus! {

use vstd::string::StringExecFns;

/// The kind of abstract data type being reflected.
#[derive(Clone, Copy, PartialEq, Eq, Structural, Debug)]
pub enum AdtId {
    /// Made with the `struct` keyword.
    Struct,
    /// Made with the `union` keyword; its field offsets are all at or near
    /// zero and the active member is chosen by the user, not a tag.
    Union,
    /// Made with the `enum` keyword; field offsets of its variants count
    /// from the base of the enumeration itself.
    Enum,
    /// A tuple; the unit type is the empty tuple and is not a separate kind.
    Tuple,
    /// An array `[T; N]` of fixed size.
    Array,
    /// A slice `[T]` of no fixed size.
    Slice,
    /// A function definition.
    Function,
}

impl AdtId {
    /// A short human-readable rendering of the kind.
    pub open spec fn describe_spec(self) -> Seq<char> {
        match self {
            AdtId::Struct => "struct { ... }"@,
            AdtId::Union => "union { ... }"@,
            AdtId::Enum => "enum { ... }"@,
            AdtId::Tuple => "tuple ( ... )"@,
            AdtId::Array => "array [type; n]"@,
            AdtId::Slice => "slice [type]"@,
            AdtId::Function => "fn (...)"@,
        }
    }

    /// Renders the kind for display.
    pub fn describe(self) -> (r: &'static str)
        ensures
            r@ == self.describe_spec(),
    {
        match self {
            AdtId::Struct => "struct { ... }",
            AdtId::Union => "union { ... }",
            AdtId::Enum => "enum { ... }",
            AdtId::Tuple => "tuple ( ... )",
            AdtId::Array => "array [type; n]",
            AdtId::Slice => "slice [type]",
            AdtId::Function => "fn (...)",
        }
    }
}

/// A marker for an axis of a descriptor that does not apply at all, as
/// opposed to one that applies and is empty.  A unit-like enum variant has
/// `NoType` where a variant with an explicit empty field tuple has a real —
/// empty — field list; the two declarations mean different things and stay
/// distinguishable.  The marker never holds data.
#[derive(Clone, Copy, PartialEq, Eq, Structural, Debug)]
pub struct NoType;

/// One metadata entry attached to a reflected entity: a name, optionally
/// with a value.  Only entries the author explicitly tagged for
/// introspection appear in descriptors; all other annotations stay
/// invisible here.
#[derive(Clone, Debug)]
pub struct AttributeDescriptor {
    /// The entry's name; always present.
    pub name: String,
    /// The entry's value, without its delimiting quotation marks, when one
    /// was given.
    pub value: Option<String>,
}

impl AttributeDescriptor {
    /// The rendering of the entry: `name = "value"`, or the bare name when
    /// no value was given.
    pub open spec fn describe_spec(self) -> Seq<char> {
        match self.value {
            Some(v) => self.name@ + " = \""@ + v@ + "\""@,
            None => self.name@,
        }
    }

    /// Renders the entry for display.
    pub fn describe(&self) -> (r: String)
        ensures
            r@ == self.describe_spec(),
    {
        match &self.value {
            Some(v) => {
                let mut s: String = self.name.as_str().to_owned();
                s.append(" = \"");
                s.append(v.as_str());
                s.append("\"");
                s
            },
            None => self.name.as_str().to_owned(),
        }
    }
}

/// An opaque identity token standing in for a type: two entities describe
/// the same type exactly when their tokens are equal.
#[derive(Clone, Copy, PartialEq, Eq, Structural, Debug, Hash)]
pub struct TypeToken {
    /// The raw identity value.
    pub raw: u64,
}

/// The opaque tag that identifies one variant of an enumeration.  It is
/// tied to the owning enumeration: tags of different owners never identify
/// the same variant, whatever their raw values.
#[derive(Clone, Copy, PartialEq, Eq, Structural, Debug)]
pub struct Discriminant {
    /// The enumeration this tag belongs to.
    pub owner: TypeToken,
    /// The raw tag value, meaningful only under its owner.
    pub tag: u64,
}

/// The contract common to every reflectable abstract data type: a kind, a
/// fully qualified name, and the metadata entries exposed for
/// introspection.
pub trait AdtDescriptor {
    /// The kind of aggregate described.
    spec fn id_spec() -> AdtId;

    /// The fully qualified name of the aggregate.
    spec fn name_spec() -> Seq<char>;

    /// The metadata entries exposed for introspection.
    spec fn attributes_spec() -> Seq<AttributeDescriptor>;

    /// The identifying kind of the abstract data type.
    fn id() -> (r: AdtId)
        ensures
            r == Self::id_spec(),
    ;

    /// The name of the abstract data type.
    fn name() -> (r: String)
        ensures
            r@ == Self::name_spec(),
    ;

    /// The metadata entries attached to this entity.
    fn attributes() -> (r: Vec<AttributeDescriptor>)
        ensures
            r@ == Self::attributes_spec(),
    ;
}

/// A description of a structure or union type.  A type with no
/// introspectable fields is described by a count of zero, never by an
/// error.
pub trait StructDescriptor: AdtDescriptor {
    /// The type that was described.
    type Type;

    /// How many fields the type has.
    spec fn field_count_spec() -> usize;

    /// The number of fields of the described type.
    fn field_count() -> (n: usize)
        ensures
            n == Self::field_count_spec(),
    ;
}

/// A description of an enumeration type.
pub trait EnumDescriptor: AdtDescriptor {
    /// The type that was described.
    type Type;

    /// A type describing all variants of the enumeration; `NoType` when
    /// there are none.
    type VariantsType;

    /// How many variants the enumeration has.
    spec fn variant_count_spec() -> usize;

    /// The number of variants of the described enumeration.
    fn variant_count() -> (n: usize)
        ensures
            n == Self::variant_count_spec(),
    ;
}

/// A description of a function definition or similar construct.
pub trait FunctionDescriptor: AdtDescriptor {
    /// A type describing all parameters of the function; `NoType` when
    /// there are none.
    type ParametersType;

    /// The return type of the function.
    type ReturnType;

    /// How many parameters the function takes; a pattern counts as a single
    /// parameter.
    spec fn parameter_count_spec() -> usize;

    /// The number of parameters of the described function.
    fn parameter_count() -> (n: usize)
        ensures
            n == Self::parameter_count_spec(),
    ;
}

/// A description of one formal parameter of a function, at declaration
/// index `PARAMETER_INDEX`.
pub trait ParameterDescriptor<const PARAMETER_INDEX: usize> {
    /// The function type this parameter belongs to.
    type OwnerType;

    /// The type of the parameter.
    type Type;

    /// The parameter's name.  It may be empty: a parameter introduced by a
    /// destructuring pattern has no single name.
    spec fn name_spec() -> Seq<char>;

    /// The metadata entries exposed for introspection.
    spec fn attributes_spec() -> Seq<AttributeDescriptor>;

    /// The zero-based declaration index; every implementation proves that
    /// the stored index equals the index parameter.
    fn parameter_index() -> (n: usize)
        ensures
            n == PARAMETER_INDEX,
    ;

    /// The name of the parameter.
    fn name() -> (r: String)
        ensures
            r@ == Self::name_spec(),
    ;

    /// The metadata entries attached to this parameter.
    fn attributes() -> (r: Vec<AttributeDescriptor>)
        ensures
            r@ == Self::attributes_spec(),
    ;
}

/// A description of one field of a structure, union or variant, at
/// declaration index `DECLARATION_INDEX`.  Byte offsets count from the base
/// address of the owning type; a field never has an unknown offset.
pub trait FieldDescriptor<const DECLARATION_INDEX: usize> {
    /// The type that owns the field; offsets count from the base of a value
    /// of this type.
    type OwnerType;

    /// The type of the field itself.
    type Type;

    /// The field's name.  Empty for a completely unnamed field; a
    /// tuple-style field instead carries the literal used to access it.
    spec fn name_spec() -> Seq<char>;

    /// The field's byte offset from the base of the owning type.  This
    /// constant is mandatory: it is valid for every live value of the owner
    /// and is known without ever constructing one.
    spec fn byte_offset_spec() -> usize;

    /// The metadata entries exposed for introspection.
    spec fn attributes_spec() -> Seq<AttributeDescriptor>;

    /// The zero-based declaration index; every implementation proves that
    /// the stored index equals the index parameter.
    fn declaration_index() -> (n: usize)
        ensures
            n == DECLARATION_INDEX,
    ;

    /// The name of the field.
    fn name() -> (r: String)
        ensures
            r@ == Self::name_spec(),
    ;

    /// The byte offset of the field within its owner.
    fn byte_offset() -> (n: usize)
        ensures
            n == Self::byte_offset_spec(),
    ;

    /// The metadata entries attached to this field.
    fn attributes() -> (r: Vec<AttributeDescriptor>)
        ensures
            r@ == Self::attributes_spec(),
    ;
}

/// A description of one variant of an enumeration, at declaration index
/// `DECLARATION_INDEX`.
pub trait VariantDescriptor<const DECLARATION_INDEX: usize> {
    /// The enumeration that owns the variant.
    type OwnerType;

    /// A type describing the variant's fields; `NoType` when the variant
    /// carries no field declaration at all, as opposed to an explicit empty
    /// list of fields.
    type FieldsType;

    /// The variant's name.
    spec fn name_spec() -> Seq<char>;

    /// The tag that identifies this variant among its siblings: exactly one
    /// variant's discriminant equals the runtime tag of any given value of
    /// the enumeration.
    spec fn discriminant_spec() -> Discriminant;

    /// How many fields the variant carries.
    spec fn field_count_spec() -> usize;

    /// The variant's value under the enumeration's fixed integer
    /// representation.  `None` both when the enumeration never opted into
    /// such a representation and when this variant's value is not known.
    spec fn integer_value_spec() -> Option<i128>;

    /// The metadata entries exposed for introspection.
    spec fn attributes_spec() -> Seq<AttributeDescriptor>;

    /// The zero-based declaration index; every implementation proves that
    /// the stored index equals the index parameter.
    fn declaration_index() -> (n: usize)
        ensures
            n == DECLARATION_INDEX,
    ;

    /// The name of the variant.
    fn name() -> (r: String)
        ensures
            r@ == Self::name_spec(),
    ;

    /// The discriminant identifying this variant.
    fn discriminant() -> (d: Discriminant)
        ensures
            d == Self::discriminant_spec(),
    ;

    /// The number of fields of this variant.
    fn field_count() -> (n: usize)
        ensures
            n == Self::field_count_spec(),
    ;

    /// The fixed-representation integer value, when there is one.
    fn integer_value() -> (v: Option<i128>)
        ensures
            v == Self::integer_value_spec(),
    ;

    /// The metadata entries attached to this variant.
    fn attributes() -> (r: Vec<AttributeDescriptor>)
        ensures
            r@ == Self::attributes_spec(),
    ;
}

impl AdtDescriptor for NoType {
    open spec fn id_spec() -> AdtId {
        AdtId::Struct
    }

    open spec fn name_spec() -> Seq<char> {
        "introwospection::NoType"@
    }

    open spec fn attributes_spec() -> Seq<AttributeDescriptor> {
        Seq::empty()
    }

    fn id() -> (r: AdtId) {
        AdtId::Struct
    }

    fn name() -> (r: String) {
        "introwospection::NoType".to_owned()
    }

    fn attributes() -> (r: Vec<AttributeDescriptor>) {
        let v: Vec<AttributeDescriptor> = Vec::new();
        proof {
            assert(v@ =~= Seq::<AttributeDescriptor>::empty());
        }
        v
    }
}

impl StructDescriptor for NoType {
    type Type = NoType;

    open spec fn field_count_spec() -> usize {
        0
    }

    fn field_count() -> (n: usize) {
        0
    }
}

} // verus!
