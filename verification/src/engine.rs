//! The derivation itself: from a type declaration to the `Default` impl
//! that is generated for it, or to the reason why there is none.

use crate::bounds::{add_trait_bounds, augment};
use crate::constructor::{construct, struct_case, Constructor, ConstructorView, TargetView};
use crate::error::DeriveError;
use crate::selector::{enum_case, enum_default, select_default};
use crate::syntax::{
    views, Body, BodyView, Declaration, DeclarationView, FieldShapeView, GenericParam,
    GenericParamView,
};
use vstd::prelude::*;

verus! {

/// A generated `impl Default`: for which type, over which generic
/// parameters, and what `default()` returns.
#[derive(Debug, PartialEq, Eq)]
pub struct DefaultImpl {
    /// The name of the type that the impl is for.
    pub ident: String,
    /// The type parameters of the declaration, with the bounds that the
    /// impl needs added.
    pub generics: Vec<GenericParam>,
    /// The body of `fn default() -> Self`.
    pub body: Constructor,
}

pub ghost struct DefaultImplView {
    pub ident: Seq<char>,
    pub generics: Seq<GenericParamView>,
    pub body: ConstructorView,
}

impl View for DefaultImpl {
    type V = DefaultImplView;

    open spec fn view(&self) -> DefaultImplView {
        DefaultImplView { ident: self.ident@, generics: views(self.generics@), body: self.body@ }
    }
}

/// The constructor for a declaration and the fields that it constructs:
/// a struct's own fields, or the fields of an enum's default variant.
/// There is none for a union, nor for an enum without exactly one marked
/// variant.
pub open spec fn constructed(decl: DeclarationView) -> Result<
    (ConstructorView, FieldShapeView),
    DeriveError,
> {
    match decl.body {
        BodyView::Struct(fields) => Ok((construct(TargetView::Type(decl.ident), fields), fields)),
        BodyView::Enum(variants) => enum_default(variants),
        BodyView::Union => Err(DeriveError::UnsupportedShape),
    }
}

/// The impl that is derived for a declaration: its body is the
/// constructor, and its generic parameters are bounded by `Default` where
/// a constructed field has the parameter as its type.
pub open spec fn derived(decl: DeclarationView) -> Result<DefaultImplView, DeriveError> {
    match constructed(decl) {
        Ok((body, shape)) => Ok(
            DefaultImplView { ident: decl.ident, generics: augment(decl.generics, shape), body },
        ),
        Err(e) => Err(e),
    }
}

/// The fields that are constructed, if any, are well formed: where they
/// are named fields, each has a name.
pub open spec fn constructible(decl: DeclarationView) -> bool {
    constructed(decl) matches Ok((_, shape)) ==> shape.well_formed()
}

impl Declaration {
    /// Whether the fields that would be constructed are well formed.
    pub fn is_constructible(&self) -> (r: bool)
        ensures
            r == constructible(self@),
    {
        match &self.body {
            Body::Struct(fields) => fields.is_well_formed(),
            Body::Enum(variants) => match select_default(variants) {
                Ok(i) => variants[i].fields.is_well_formed(),
                Err(_) => true,
            },
            Body::Union => true,
        }
    }
}

/// Derives the `Default` impl for a declaration.
///
/// A struct is built from the defaults of its fields, an enum from those
/// of its one marked variant. A union, an enum without variants, and an
/// enum with no or with several marked variants are refused.
pub fn derive(input: Declaration) -> (r: Result<DefaultImpl, DeriveError>)
    requires
        constructible(input@),
    ensures
        match r {
            Ok(generated) => derived(input@) == Ok::<DefaultImplView, DeriveError>(generated@),
            Err(e) => derived(input@) == Err::<DefaultImplView, DeriveError>(e),
        },
{
    let Declaration { ident, generics, body } = input;
    let mut generics = generics;
    let (constructor, fields) = match body {
        Body::Struct(fields) => struct_case(ident.as_str(), &fields),
        Body::Enum(variants) => match enum_case(&variants) {
            Ok(built) => built,
            Err(e) => {
                return Err(e);
            },
        },
        Body::Union => {
            return Err(DeriveError::UnsupportedShape);
        },
    };
    add_trait_bounds(&mut generics, &fields);
    Ok(DefaultImpl { ident, generics, body: constructor })
}

} // verus!
