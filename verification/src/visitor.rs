//! Visitor contracts: double dispatch over descriptors without allocation
//! or indirect calls.
//!
//! A generic algorithm implements the visitor capability for each kind of
//! descriptor it wants to walk; the descriptor type arrives as a
//! compile-time type argument, and for indexed descriptors the declaration
//! index arrives as a compile-time value argument.  Each capability also
//! offers a mutable entry point which, unless overridden, forwards to the
//! immutable one — re-dispatch only, never mutation on the caller's behalf.
//! Traversal over the members of a type is the caller's business; whoever
//! drives it must visit in ascending declaration-index order to match the
//! descriptor invariants.

use vstd::prelude::*;

verus! {

use crate::descriptor::{
    EnumDescriptor, FieldDescriptor, FunctionDescriptor, ParameterDescriptor, StructDescriptor,
    VariantDescriptor,
};

/// A visitor over `StructDescriptor` implementations.
pub trait StructDescriptorVisitor {
    /// What a visit returns.
    type Output;

    /// Visits a specific `StructDescriptor` type, immutably.
    fn visit_struct<Type: StructDescriptor>(&self) -> Self::Output;

    /// Visits a specific `StructDescriptor` type, mutably; unless
    /// overridden, forwards to the immutable form.
    fn visit_struct_mut<Type: StructDescriptor>(&mut self) -> Self::Output {
        Self::visit_struct::<Type>(self)
    }
}

/// A visitor over `EnumDescriptor` implementations.
pub trait EnumDescriptorVisitor {
    /// What a visit returns.
    type Output;

    /// Visits a specific `EnumDescriptor` type, immutably.
    fn visit_enum<Type: EnumDescriptor>(&self) -> Self::Output;

    /// Visits a specific `EnumDescriptor` type, mutably; unless overridden,
    /// forwards to the immutable form.
    fn visit_enum_mut<Type: EnumDescriptor>(&mut self) -> Self::Output {
        Self::visit_enum::<Type>(self)
    }
}

/// A visitor over `FunctionDescriptor` implementations.
pub trait FunctionDescriptorVisitor {
    /// What a visit returns.
    type Output;

    /// Visits a specific `FunctionDescriptor` type, immutably.
    fn visit_function<Type: FunctionDescriptor>(&self) -> Self::Output;

    /// Visits a specific `FunctionDescriptor` type, mutably; unless
    /// overridden, forwards to the immutable form.
    fn visit_function_mut<Type: FunctionDescriptor>(&mut self) -> Self::Output {
        Self::visit_function::<Type>(self)
    }
}

/// A visitor over `ParameterDescriptor` implementations, one per
/// declaration index of the visited function type.
pub trait ParameterDescriptorVisitor {
    /// What a visit returns.
    type Output;

    /// Visits a specific `ParameterDescriptor` type at its declaration
    /// index, immutably.
    fn visit_parameter<Type, const DECLARATION_INDEX: usize>(&self) -> Self::Output where
        Type: ParameterDescriptor<DECLARATION_INDEX>;

    /// Visits a specific `ParameterDescriptor` type, mutably; unless
    /// overridden, forwards to the immutable form.
    fn visit_parameter_mut<Type, const DECLARATION_INDEX: usize>(&mut self) -> Self::Output where
        Type: ParameterDescriptor<DECLARATION_INDEX>,
    {
        Self::visit_parameter::<Type, DECLARATION_INDEX>(self)
    }
}

/// A visitor over `FieldDescriptor` implementations, one per declaration
/// index of the visited structure or union type.
pub trait FieldDescriptorVisitor {
    /// What a visit returns.
    type Output;

    /// Visits a specific `FieldDescriptor` type at its declaration index,
    /// immutably.
    fn visit_field<Type, const DECLARATION_INDEX: usize>(&self) -> Self::Output where
        Type: FieldDescriptor<DECLARATION_INDEX>;

    /// Visits a specific `FieldDescriptor` type, mutably; unless
    /// overridden, forwards to the immutable form.
    fn visit_field_mut<Type, const DECLARATION_INDEX: usize>(&mut self) -> Self::Output where
        Type: FieldDescriptor<DECLARATION_INDEX>,
    {
        Self::visit_field::<Type, DECLARATION_INDEX>(self)
    }
}

/// A visitor over `VariantDescriptor` implementations, one per declaration
/// index of the visited enumeration type.
pub trait VariantDescriptorVisitor {
    /// What a visit returns.
    type Output;

    /// Visits a specific `VariantDescriptor` type at its declaration index,
    /// immutably.
    fn visit_variant<Type, const DECLARATION_INDEX: usize>(&self) -> Self::Output where
        Type: VariantDescriptor<DECLARATION_INDEX>;

    /// Visits a specific `VariantDescriptor` type, mutably; unless
    /// overridden, forwards to the immutable form.
    fn visit_variant_mut<Type, const DECLARATION_INDEX: usize>(&mut self) -> Self::Output where
        Type: VariantDescriptor<DECLARATION_INDEX>,
    {
        Self::visit_variant::<Type, DECLARATION_INDEX>(self)
    }
}

/// Every per-kind visitor at once: the capability a recursive walk needs,
/// so that descending from an aggregate into the descriptors of its members
/// can be written against a single bound.
pub trait DescriptorVisitor:
    FunctionDescriptorVisitor
    + ParameterDescriptorVisitor
    + StructDescriptorVisitor
    + EnumDescriptorVisitor
    + FieldDescriptorVisitor
    + VariantDescriptorVisitor
{
}

} // verus!
