//! A plain-data model of the part of a type declaration that the engine reads.
//!
//! Every type here has a view (`@`) made of `Seq`s and plain values; the
//! contracts of the engine are stated over those views.

use vstd::prelude::*;

verus! {

/// The views of a sequence of values, element by element.
pub open spec fn views<T: View>(s: Seq<T>) -> Seq<T::V> {
    Seq::new(s.len(), |i: int| s[i]@)
}

/// One segment of a path: an identifier, possibly followed by arguments
/// (`Vec<u8>`, `Fn(u8)`).
#[derive(Debug, PartialEq, Eq)]
pub struct PathSegment {
    /// The identifier as written, an `r#` prefix included.
    pub ident: String,
    /// Whether generic or parenthesised arguments follow the identifier.
    pub has_arguments: bool,
}

pub ghost struct PathSegmentView {
    pub ident: Seq<char>,
    pub has_arguments: bool,
}

impl View for PathSegment {
    type V = PathSegmentView;

    open spec fn view(&self) -> PathSegmentView {
        PathSegmentView { ident: self.ident@, has_arguments: self.has_arguments }
    }
}

impl Clone for PathSegment {
    fn clone(&self) -> (r: Self)
        ensures
            r@ == self@,
    {
        PathSegment { ident: self.ident.clone(), has_arguments: self.has_arguments }
    }
}

/// A path such as `default`, `std::default::Default` or `::core::fmt::Debug`.
#[derive(Debug, PartialEq, Eq)]
pub struct Path {
    /// Whether the path starts with `::`.
    pub leading_colon: bool,
    pub segments: Vec<PathSegment>,
}

pub ghost struct PathView {
    pub leading_colon: bool,
    pub segments: Seq<PathSegmentView>,
}

impl PathView {
    /// The identifier that the path consists of, if it is a single
    /// identifier: no leading `::`, one segment, no arguments.
    pub open spec fn get_ident(self) -> Option<Seq<char>> {
        if !self.leading_colon && self.segments.len() == 1 && !self.segments[0].has_arguments {
            Some(self.segments[0].ident)
        } else {
            None
        }
    }

    /// Whether the path is exactly the identifier `ident`.
    pub open spec fn is_ident(self, ident: Seq<char>) -> bool {
        self.get_ident() == Some(ident)
    }
}

impl View for Path {
    type V = PathView;

    open spec fn view(&self) -> PathView {
        PathView { leading_colon: self.leading_colon, segments: views(self.segments@) }
    }
}

impl Clone for Path {
    fn clone(&self) -> (r: Self)
        ensures
            r@ == self@,
    {
        let segments = self.segments.clone();
        assert(views(segments@) =~= views(self.segments@));
        Path { leading_colon: self.leading_colon, segments }
    }
}

impl Path {
    /// The path that consists of the single identifier `ident`.
    pub fn from_ident(ident: &str) -> (r: Path)
        ensures
            r@ == (PathView {
                leading_colon: false,
                segments: seq![PathSegmentView { ident: ident@, has_arguments: false }],
            }),
    {
        let mut segments: Vec<PathSegment> = Vec::new();
        segments.push(PathSegment { ident: ident.to_owned(), has_arguments: false });
        assert(views(segments@) =~= seq![PathSegmentView { ident: ident@, has_arguments: false }]);
        Path { leading_colon: false, segments }
    }

    /// The identifier that the path consists of, if it is a single identifier.
    pub fn get_ident(&self) -> (r: Option<&String>)
        ensures
            r matches Some(s) ==> self@.get_ident() == Some(s@),
            r is None ==> self@.get_ident() is None,
    {
        if !self.leading_colon && self.segments.len() == 1 && !self.segments[0].has_arguments {
            Some(&self.segments[0].ident)
        } else {
            None
        }
    }

    /// Whether the path is exactly the identifier `ident`.
    pub fn is_ident(&self, ident: &str) -> (r: bool)
        ensures
            r == self@.is_ident(ident@),
    {
        match self.get_ident() {
            Some(id) => {
                let wanted = ident.to_owned();
                *id == wanted
            },
            None => false,
        }
    }
}

/// What kind of type a field has, as far as the engine looks.
#[derive(Debug, PartialEq, Eq)]
pub enum TypeKind {
    /// A path type: `u8`, `T`, `Vec<T>`, `std::string::String`,
    /// `<T as Iterator>::Item`.
    Path {
        /// Whether the path is qualified by a self type (`<T as Trait>::..`).
        qualified: bool,
        path: Path,
    },
    /// Any other type: a reference, a tuple, an array, ...
    Other,
}

pub ghost enum TypeKindView {
    Path { qualified: bool, path: PathView },
    Other,
}

impl View for TypeKind {
    type V = TypeKindView;

    open spec fn view(&self) -> TypeKindView {
        match self {
            TypeKind::Path { qualified, path } => TypeKindView::Path {
                qualified: *qualified,
                path: path@,
            },
            TypeKind::Other => TypeKindView::Other,
        }
    }
}

impl Clone for TypeKind {
    fn clone(&self) -> (r: Self)
        ensures
            r@ == self@,
    {
        match self {
            TypeKind::Path { qualified, path } => TypeKind::Path {
                qualified: *qualified,
                path: path.clone(),
            },
            TypeKind::Other => TypeKind::Other,
        }
    }
}

/// The declared type of a field.
#[derive(Debug, PartialEq, Eq)]
pub struct TypeExpr {
    /// The type as written in the declaration.
    pub tokens: String,
    pub kind: TypeKind,
}

pub ghost struct TypeExprView {
    pub tokens: Seq<char>,
    pub kind: TypeKindView,
}

impl View for TypeExpr {
    type V = TypeExprView;

    open spec fn view(&self) -> TypeExprView {
        TypeExprView { tokens: self.tokens@, kind: self.kind@ }
    }
}

impl TypeExpr {
    /// The type that is written as the single identifier `ident`: `u8`, `T`.
    pub fn from_ident(ident: &str) -> (r: TypeExpr)
        ensures
            r@ == (TypeExprView {
                tokens: ident@,
                kind: TypeKindView::Path {
                    qualified: false,
                    path: PathView {
                        leading_colon: false,
                        segments: seq![PathSegmentView { ident: ident@, has_arguments: false }],
                    },
                },
            }),
    {
        TypeExpr {
            tokens: ident.to_owned(),
            kind: TypeKind::Path { qualified: false, path: Path::from_ident(ident) },
        }
    }

    /// A type that is not a path, as written: `&'static str`, `(u8, u8)`.
    pub fn other(tokens: &str) -> (r: TypeExpr)
        ensures
            r@ == (TypeExprView { tokens: tokens@, kind: TypeKindView::Other }),
    {
        TypeExpr { tokens: tokens.to_owned(), kind: TypeKind::Other }
    }
}

impl Clone for TypeExpr {
    fn clone(&self) -> (r: Self)
        ensures
            r@ == self@,
    {
        TypeExpr { tokens: self.tokens.clone(), kind: self.kind.clone() }
    }
}

/// A field of a struct or of an enum variant.
#[derive(Debug, PartialEq, Eq)]
pub struct Field {
    /// The field's name; `None` for a positional field.
    pub ident: Option<String>,
    pub ty: TypeExpr,
}

pub ghost struct FieldView {
    pub ident: Option<Seq<char>>,
    pub ty: TypeExprView,
}

impl View for Field {
    type V = FieldView;

    open spec fn view(&self) -> FieldView {
        FieldView {
            ident: match self.ident {
                Some(name) => Some(name@),
                None => None,
            },
            ty: self.ty@,
        }
    }
}

impl Clone for Field {
    fn clone(&self) -> (r: Self)
        ensures
            r@ == self@,
    {
        let ident = match &self.ident {
            Some(name) => Some(name.clone()),
            None => None,
        };
        Field { ident, ty: self.ty.clone() }
    }
}

/// The fields of a struct or of an enum variant.
#[derive(Debug, PartialEq, Eq)]
pub enum FieldShape {
    /// No fields: `struct Foo;`, `A`.
    Unit,
    /// Positional fields, in declaration order: `struct Foo(u8, u16);`.
    Positional(Vec<Field>),
    /// Named fields, in declaration order: `struct Foo { a: u8 }`.
    Named(Vec<Field>),
}

pub ghost enum FieldShapeView {
    Unit,
    Positional(Seq<FieldView>),
    Named(Seq<FieldView>),
}

impl FieldShapeView {
    /// The fields of the shape, in declaration order; none for a unit shape.
    pub open spec fn fields(self) -> Seq<FieldView> {
        match self {
            FieldShapeView::Unit => Seq::empty(),
            FieldShapeView::Positional(fields) => fields,
            FieldShapeView::Named(fields) => fields,
        }
    }

    /// Every field of a named shape has a name. A parser of Rust source
    /// gives no other shapes.
    pub open spec fn well_formed(self) -> bool {
        self matches FieldShapeView::Named(fields) ==> forall|i: int|
            0 <= i < fields.len() ==> (#[trigger] fields[i]).ident is Some
    }
}

impl View for FieldShape {
    type V = FieldShapeView;

    open spec fn view(&self) -> FieldShapeView {
        match self {
            FieldShape::Unit => FieldShapeView::Unit,
            FieldShape::Positional(fields) => FieldShapeView::Positional(views(fields@)),
            FieldShape::Named(fields) => FieldShapeView::Named(views(fields@)),
        }
    }
}

impl Clone for FieldShape {
    fn clone(&self) -> (r: Self)
        ensures
            r@ == self@,
    {
        match self {
            FieldShape::Unit => FieldShape::Unit,
            FieldShape::Positional(fields) => {
                let copy = fields.clone();
                assert(views(copy@) =~= views(fields@));
                FieldShape::Positional(copy)
            },
            FieldShape::Named(fields) => {
                let copy = fields.clone();
                assert(views(copy@) =~= views(fields@));
                FieldShape::Named(copy)
            },
        }
    }
}

impl FieldShape {
    /// Whether every field of a named shape has a name.
    pub fn is_well_formed(&self) -> (r: bool)
        ensures
            r == self@.well_formed(),
    {
        match self {
            FieldShape::Named(fields) => {
                let mut i: usize = 0;
                while i < fields.len()
                    invariant
                        i <= fields.len(),
                        self@ == FieldShapeView::Named(views(fields@)),
                        forall|j: int| 0 <= j < i ==> (#[trigger] views(fields@)[j]).ident is Some,
                    decreases fields.len() - i,
                {
                    if fields[i].ident.is_none() {
                        assert(views(fields@)[i as int].ident is None);
                        return false;
                    }
                    i += 1;
                }
                true
            },
            _ => true,
        }
    }
}

/// An attribute on a variant, such as `#[default]` or `#[doc = "..."]`.
#[derive(Debug, PartialEq, Eq)]
pub struct Attribute {
    /// The path that names the attribute.
    pub path: Path,
}

pub ghost struct AttributeView {
    pub path: PathView,
}

impl View for Attribute {
    type V = AttributeView;

    open spec fn view(&self) -> AttributeView {
        AttributeView { path: self.path@ }
    }
}

impl Clone for Attribute {
    fn clone(&self) -> (r: Self)
        ensures
            r@ == self@,
    {
        Attribute { path: self.path.clone() }
    }
}

/// A variant of an enum.
#[derive(Debug, PartialEq, Eq)]
pub struct Variant {
    /// The attributes on the variant, in source order. A doc comment is an
    /// attribute too.
    pub attrs: Vec<Attribute>,
    pub ident: String,
    pub fields: FieldShape,
}

pub ghost struct VariantView {
    pub attrs: Seq<AttributeView>,
    pub ident: Seq<char>,
    pub fields: FieldShapeView,
}

impl View for Variant {
    type V = VariantView;

    open spec fn view(&self) -> VariantView {
        VariantView { attrs: views(self.attrs@), ident: self.ident@, fields: self.fields@ }
    }
}

impl Clone for Variant {
    fn clone(&self) -> (r: Self)
        ensures
            r@ == self@,
    {
        let attrs = self.attrs.clone();
        assert(views(attrs@) =~= views(self.attrs@));
        Variant { attrs, ident: self.ident.clone(), fields: self.fields.clone() }
    }
}

/// A generic type parameter with its bounds. Lifetime and const
/// parameters are not part of the model: the engine never touches them.
#[derive(Debug, PartialEq, Eq)]
pub struct GenericParam {
    pub ident: String,
    /// The bounds on the parameter, each as written.
    pub bounds: Vec<String>,
}

pub ghost struct GenericParamView {
    pub ident: Seq<char>,
    pub bounds: Seq<Seq<char>>,
}

impl View for GenericParam {
    type V = GenericParamView;

    open spec fn view(&self) -> GenericParamView {
        GenericParamView { ident: self.ident@, bounds: views(self.bounds@) }
    }
}

impl Clone for GenericParam {
    fn clone(&self) -> (r: Self)
        ensures
            r@ == self@,
    {
        let bounds = self.bounds.clone();
        assert(views(bounds@) =~= views(self.bounds@));
        GenericParam { ident: self.ident.clone(), bounds }
    }
}

/// The body of a type declaration.
#[derive(Debug, PartialEq, Eq)]
pub enum Body {
    Struct(FieldShape),
    /// The variants of an enum, in declaration order.
    Enum(Vec<Variant>),
    Union,
}

pub ghost enum BodyView {
    Struct(FieldShapeView),
    Enum(Seq<VariantView>),
    Union,
}

impl View for Body {
    type V = BodyView;

    open spec fn view(&self) -> BodyView {
        match self {
            Body::Struct(fields) => BodyView::Struct(fields@),
            Body::Enum(variants) => BodyView::Enum(views(variants@)),
            Body::Union => BodyView::Union,
        }
    }
}

/// A type declaration: what `#[derive(Default)]` is put on.
#[derive(Debug, PartialEq, Eq)]
pub struct Declaration {
    pub ident: String,
    /// The generic type parameters, in declaration order.
    pub generics: Vec<GenericParam>,
    pub body: Body,
}

pub ghost struct DeclarationView {
    pub ident: Seq<char>,
    pub generics: Seq<GenericParamView>,
    pub body: BodyView,
}

impl View for Declaration {
    type V = DeclarationView;

    open spec fn view(&self) -> DeclarationView {
        DeclarationView {
            ident: self.ident@,
            generics: views(self.generics@),
            body: self.body@,
        }
    }
}

} // verus!
