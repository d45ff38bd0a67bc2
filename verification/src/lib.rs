//! Structural reflection contracts together with the pointer arithmetic
//! needed to turn field descriptors into field addresses.
//!
//! The crate has two halves.  The descriptor half gives a generic algorithm a
//! way to learn, through trait contracts, what a data type looks like: the
//! kind of aggregate it is, its name, and one descriptor per field, variant or
//! parameter, each restating its own declaration index.  An owned,
//! type-erased mirror of the same shapes is available for contexts that
//! cannot be generic over the described type.  The pointer half models a raw
//! pointer as an address tied to the allocated region it was derived from, so
//! that offset arithmetic, provenance-preserving address changes and distance
//! computation can be specified and checked exactly.

pub mod access;
pub mod descriptor;
pub mod erased;
pub mod ptr;
pub mod visitor;
