//! Structural equality, generated from a record declaration.
//!
//! A type's own `PartialEq` is often deliberately coarse: it may compare only
//! an identifier, not every field.  This crate synthesizes, from the shape of
//! a record declaration, a comparison that conjoins one equality check per
//! field in declaration order, and an assertion outcome that reports both
//! operands when the comparison fails.
//!
//! - [`decl`] models a record declaration and classifies its shape.
//! - [`synth`] emits the text of the generated comparison function.
//! - [`value`] gives the runtime meaning of the generated comparison and
//!   proves its laws.
//! - [`assertion`] builds the assertion outcome and its failure message.
//! - [`digits`] renders integers in decimal for positional accessors.

use vstd::prelude::*;

pub mod assertion;
pub mod decl;
pub mod digits;
pub mod synth;
pub mod value;

verus! {

/// Structural equality over every field of `Self`, independent of the
/// possibly coarser equality that `PartialEq` gives the type.
///
/// Types whose comparison is synthesized by this crate implement this trait;
/// it is the only surface the assertion layer depends on.
pub trait AllEq: PartialEq {
    fn all_eq(&self, other: &Self) -> bool;
}

} // verus!
