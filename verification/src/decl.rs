//! The declaration surface's shape rules.
//!
//! A type becomes eligible for the family pattern by acquiring a hidden link
//! field next to its own named fields. Only a struct with named fields can
//! carry one; applying the pattern to anything else must fail loudly at the
//! declaration boundary, never compile into a runtime that silently
//! misbehaves. This module holds that decision and the field augmentation on
//! a plain description of the declared item; reading a declaration into this
//! description and rendering the augmented one back to source text stay at
//! the edge.

use vstd::prelude::*;

verus! {

/// A declared item, reduced to what the shape rules need: its kind, and for
/// a struct with named fields, the field names in declaration order.
pub enum ItemDecl {
    /// A struct with named fields — possibly none, as in `struct Foo {}`.
    NamedStruct { fields: Vec<String> },
    /// A struct with unnamed (tuple) fields.
    TupleStruct,
    /// A unit struct, without a field list.
    UnitStruct,
    /// Anything that is not a struct.
    NotAStruct,
}

/// Why a declaration was rejected.
#[derive(Clone, Copy, Debug, Eq, PartialEq, Structural)]
pub enum DeclError {
    /// The pattern was applied to something other than a struct.
    MustBeStruct,
    /// The pattern was applied to a struct without named fields.
    MustHaveNamedFields,
}

/// Decides whether a declared item may carry the hidden link field and, when
/// it may, appends that field to its named fields. A struct with named
/// fields (even none) is augmented; a tuple or unit struct is refused for
/// want of named fields; anything else is refused for not being a struct.
pub fn augment(item: ItemDecl, link_field: String) -> (r: Result<Vec<String>, DeclError>)
    ensures
        match item {
            ItemDecl::NamedStruct { fields } => {
                &&& r is Ok
                &&& r->Ok_0@ == fields@.push(link_field)
            },
            ItemDecl::TupleStruct => r == Result::<Vec<String>, DeclError>::Err(
                DeclError::MustHaveNamedFields,
            ),
            ItemDecl::UnitStruct => r == Result::<Vec<String>, DeclError>::Err(
                DeclError::MustHaveNamedFields,
            ),
            ItemDecl::NotAStruct => r == Result::<Vec<String>, DeclError>::Err(
                DeclError::MustBeStruct,
            ),
        },
{
    match item {
        ItemDecl::NamedStruct { mut fields } => {
            fields.push(link_field);
            Ok(fields)
        },
        ItemDecl::TupleStruct => Err(DeclError::MustHaveNamedFields),
        ItemDecl::UnitStruct => Err(DeclError::MustHaveNamedFields),
        ItemDecl::NotAStruct => Err(DeclError::MustBeStruct),
    }
}

} // verus!
