//! Which generic parameters get a `Default` bound.
//!
//! A parameter gets the bound when some constructed field has it as its
//! whole type, written as the bare name: one identifier, with no leading
//! `::`, no arguments and no self qualifier. The test is on the text
//! alone: a parameter inside another type (`Vec<T>`) or behind a longer
//! path does not count.

use crate::syntax::{
    views, FieldShape, FieldShapeView, GenericParam, GenericParamView, TypeExpr, TypeExprView,
    TypeKind, TypeKindView,
};
use vstd::prelude::*;

verus! {

/// The bound that is added, as it is written into the impl.
pub const DEFAULT_BOUND: &'static str = "::std::default::Default";

/// The identifier of a type that is written as a bare name: a path with
/// no self qualifier that is a single identifier. `None` for every other
/// type, `Vec<T>`, `::T` and `a::T` among them.
pub open spec fn bare_type_name(ty: TypeExprView) -> Option<Seq<char>> {
    match ty.kind {
        TypeKindView::Path { qualified, path } => if qualified {
            None
        } else {
            path.get_ident()
        },
        TypeKindView::Other => None,
    }
}

/// Whether `ident` is the whole type of one of the fields.
pub open spec fn is_field_type(fields: Seq<TypeExprView>, ident: Seq<char>) -> bool {
    exists|i: int| 0 <= i < fields.len() && bare_type_name(#[trigger] fields[i]) == Some(ident)
}

/// The declared types of the fields of a shape, in declaration order.
pub open spec fn field_types(shape: FieldShapeView) -> Seq<TypeExprView> {
    Seq::new(shape.fields().len(), |i: int| shape.fields()[i].ty)
}

/// The parameter with the `Default` bound added behind its other bounds.
pub open spec fn with_default_bound(param: GenericParamView) -> GenericParamView {
    GenericParamView { ident: param.ident, bounds: param.bounds.push(DEFAULT_BOUND@) }
}

/// The generic parameters after the bounds are added: each parameter that
/// is the type of a field of `shape` gets the `Default` bound, the others
/// stay as they are.
pub open spec fn augment(generics: Seq<GenericParamView>, shape: FieldShapeView) -> Seq<
    GenericParamView,
> {
    Seq::new(
        generics.len(),
        |i: int|
            if is_field_type(field_types(shape), generics[i].ident) {
                with_default_bound(generics[i])
            } else {
                generics[i]
            },
    )
}

/// The identifier of a type that is written as a bare name.
pub fn type_ident(ty: &TypeExpr) -> (r: Option<&String>)
    ensures
        match r {
            Some(ident) => bare_type_name(ty@) == Some(ident@),
            None => bare_type_name(ty@) is None,
        },
{
    match &ty.kind {
        TypeKind::Path { qualified, path } => {
            if *qualified {
                None
            } else {
                path.get_ident()
            }
        },
        TypeKind::Other => None,
    }
}

/// Whether `ident` is the whole type of one of the fields of `shape`.
pub fn uses_as_field_type(shape: &FieldShape, ident: &String) -> (r: bool)
    ensures
        r == is_field_type(field_types(shape@), ident@),
{
    let fields = match shape {
        FieldShape::Unit => {
            return false;
        },
        FieldShape::Positional(fields) => fields,
        FieldShape::Named(fields) => fields,
    };
    let ghost types = field_types(shape@);
    let mut i: usize = 0;
    while i < fields.len()
        invariant
            i <= fields.len(),
            types == field_types(shape@),
            types.len() == fields.len(),
            forall|j: int| 0 <= j < fields.len() ==> types[j] == (#[trigger] fields@[j]).ty@,
            forall|j: int| 0 <= j < i ==> bare_type_name(#[trigger] types[j]) != Some(ident@),
        decreases fields.len() - i,
    {
        match type_ident(&fields[i].ty) {
            Some(found) => {
                if *found == *ident {
                    assert(bare_type_name(types[i as int]) == Some(ident@));
                    return true;
                }
            },
            None => {},
        }
        i += 1;
    }
    false
}

/// Adds the `Default` bound to each generic parameter that is the type
/// of a field of `shape`.
pub fn add_trait_bounds(generics: &mut Vec<GenericParam>, shape: &FieldShape)
    ensures
        views(final(generics)@) == augment(views(old(generics)@), shape@),
{
    let ghost before = views(generics@);
    let mut i: usize = 0;
    while i < generics.len()
        invariant
            i <= generics.len(),
            generics.len() == before.len(),
            forall|j: int| 0 <= j < i ==> (#[trigger] generics@[j])@ == augment(before, shape@)[j],
            forall|j: int| i <= j < generics.len() ==> (#[trigger] generics@[j])@ == before[j],
        decreases generics.len() - i,
    {
        if uses_as_field_type(shape, &generics[i].ident) {
            generics[i].bounds.push(DEFAULT_BOUND.to_owned());
            assert(views(generics@[i as int].bounds@) =~= before[i as int].bounds.push(
                DEFAULT_BOUND@,
            ));
        }
        i += 1;
    }
    assert(views(generics@) =~= augment(before, shape@));
}

} // verus!
