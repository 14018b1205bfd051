//! The expression that builds a default instance: the thing to construct,
//! and for every field the `default()` of the field's declared type.

use crate::syntax::{views, FieldShape, FieldShapeView, FieldView, TypeExpr, TypeExprView};
use vstd::prelude::*;
use vstd::string::StringExecFns;

verus! {

/// What a constructor builds.
#[derive(Debug, PartialEq, Eq)]
pub enum Target {
    /// A struct, by its name: `Bar`.
    Type(String),
    /// A variant of the enum that the impl is for, by its position among
    /// the variants and by its name: `Self::A`.
    SelfVariant { position: usize, ident: String },
}

pub ghost enum TargetView {
    Type(Seq<char>),
    SelfVariant { position: int, ident: Seq<char> },
}

impl TargetView {
    /// The path that names the target in an expression.
    pub open spec fn source(self) -> Seq<char> {
        match self {
            TargetView::Type(name) => name,
            TargetView::SelfVariant { position, ident } => "Self::"@ + ident,
        }
    }
}

impl View for Target {
    type V = TargetView;

    open spec fn view(&self) -> TargetView {
        match self {
            Target::Type(name) => TargetView::Type(name@),
            Target::SelfVariant { position, ident } => TargetView::SelfVariant {
                position: *position as int,
                ident: ident@,
            },
        }
    }
}

/// A named field set to the default of its type: `name: Ty::default()`.
#[derive(Debug, PartialEq, Eq)]
pub struct FieldInit {
    pub name: String,
    pub ty: TypeExpr,
}

pub ghost struct FieldInitView {
    pub name: Seq<char>,
    pub ty: TypeExprView,
}

impl View for FieldInit {
    type V = FieldInitView;

    open spec fn view(&self) -> FieldInitView {
        FieldInitView { name: self.name@, ty: self.ty@ }
    }
}

/// An expression that builds a value out of defaults.
#[derive(Debug, PartialEq, Eq)]
pub enum Constructor {
    /// The bare target: `Foo`, `Self::A`.
    Unit(Target),
    /// The target applied to the default of each listed type, in order:
    /// `Foo(u8::default(), T::default())`.
    Tuple(Target, Vec<TypeExpr>),
    /// The target with each named field set to the default of its type,
    /// in order: `Foo { a: u8::default() }`.
    Record(Target, Vec<FieldInit>),
}

pub ghost enum ConstructorView {
    Unit(TargetView),
    Tuple(TargetView, Seq<TypeExprView>),
    Record(TargetView, Seq<FieldInitView>),
}

impl View for Constructor {
    type V = ConstructorView;

    open spec fn view(&self) -> ConstructorView {
        match self {
            Constructor::Unit(target) => ConstructorView::Unit(target@),
            Constructor::Tuple(target, args) => ConstructorView::Tuple(target@, views(args@)),
            Constructor::Record(target, inits) => ConstructorView::Record(target@, views(inits@)),
        }
    }
}

/// The initialiser of a named field: the field's name and declared type.
pub open spec fn field_init(field: FieldView) -> FieldInitView {
    FieldInitView { name: field.ident->0, ty: field.ty }
}

/// The constructor of `target` for a field shape: no fields for a unit
/// shape, else one default per field, of the field's declared type, in
/// declaration order.
pub open spec fn construct(target: TargetView, shape: FieldShapeView) -> ConstructorView {
    match shape {
        FieldShapeView::Unit => ConstructorView::Unit(target),
        FieldShapeView::Positional(fields) => ConstructorView::Tuple(
            target,
            Seq::new(fields.len(), |i: int| fields[i].ty),
        ),
        FieldShapeView::Named(fields) => ConstructorView::Record(
            target,
            Seq::new(fields.len(), |i: int| field_init(fields[i])),
        ),
    }
}

/// Builds the constructor of `target` for the fields `shape`.
pub fn synthesize(target: Target, shape: &FieldShape) -> (c: Constructor)
    requires
        shape@.well_formed(),
    ensures
        c@ == construct(target@, shape@),
{
    match shape {
        FieldShape::Unit => Constructor::Unit(target),
        FieldShape::Positional(fields) => {
            let mut args: Vec<TypeExpr> = Vec::new();
            let mut i: usize = 0;
            while i < fields.len()
                invariant
                    i <= fields.len(),
                    args@.len() == i,
                    forall|j: int| 0 <= j < i ==> (#[trigger] args@[j])@ == fields@[j].ty@,
                decreases fields.len() - i,
            {
                args.push(fields[i].ty.clone());
                i += 1;
            }
            assert(views(args@) =~= Seq::new(
                views(fields@).len(),
                |i: int| views(fields@)[i].ty,
            ));
            Constructor::Tuple(target, args)
        },
        FieldShape::Named(fields) => {
            let mut inits: Vec<FieldInit> = Vec::new();
            let mut i: usize = 0;
            while i < fields.len()
                invariant
                    i <= fields.len(),
                    inits@.len() == i,
                    forall|j: int|
                        0 <= j < fields.len() ==> (#[trigger] views(fields@)[j]).ident is Some,
                    forall|j: int|
                        0 <= j < i ==> (#[trigger] inits@[j])@ == field_init(views(fields@)[j]),
                decreases fields.len() - i,
            {
                let field = &fields[i];
                assert(views(fields@)[i as int].ident is Some);
                let name = field.ident.as_ref().unwrap().clone();
                inits.push(FieldInit { name, ty: field.ty.clone() });
                i += 1;
            }
            assert(views(inits@) =~= Seq::new(
                views(fields@).len(),
                |i: int| field_init(views(fields@)[i]),
            ));
            Constructor::Record(target, inits)
        },
    }
}

/// The constructor for a struct, together with the fields that it
/// constructs: the struct's own.
pub fn struct_case(struct_ident: &str, fields: &FieldShape) -> (r: (Constructor, FieldShape))
    requires
        fields@.well_formed(),
    ensures
        r.0@ == construct(TargetView::Type(struct_ident@), fields@),
        r.1@ == fields@,
{
    let constructor = synthesize(Target::Type(struct_ident.to_owned()), fields);
    (constructor, fields.clone())
}

/// The call that gives the default of a type: the type as written,
/// followed by `::default()`.
pub open spec fn default_call(ty: TypeExprView) -> Seq<char> {
    ty.tokens + "::default()"@
}

/// A named field set to the default of its type: `name: Ty::default()`.
pub open spec fn field_init_source(init: FieldInitView) -> Seq<char> {
    init.name + ": "@ + default_call(init.ty)
}

/// The items in order, with `, ` between each two.
pub open spec fn comma_separated(items: Seq<Seq<char>>) -> Seq<char>
    decreases items.len(),
{
    if items.len() == 0 {
        Seq::empty()
    } else if items.len() == 1 {
        items[0]
    } else {
        comma_separated(items.drop_last()) + ", "@ + items.last()
    }
}

impl ConstructorView {
    /// The default call of each argument of a tuple constructor.
    pub open spec fn tuple_items(args: Seq<TypeExprView>) -> Seq<Seq<char>> {
        Seq::new(args.len(), |i: int| default_call(args[i]))
    }

    /// The initialiser of each field of a record constructor.
    pub open spec fn record_items(inits: Seq<FieldInitView>) -> Seq<Seq<char>> {
        Seq::new(inits.len(), |i: int| field_init_source(inits[i]))
    }

    /// The constructor as Rust source: `Foo`, `Foo(u8::default())`,
    /// `Foo { a: u8::default() }`, and `Foo {}` without fields.
    pub open spec fn source(self) -> Seq<char> {
        match self {
            ConstructorView::Unit(target) => target.source(),
            ConstructorView::Tuple(target, args) => target.source() + "("@ + comma_separated(
                Self::tuple_items(args),
            ) + ")"@,
            ConstructorView::Record(target, inits) => if inits.len() == 0 {
                target.source() + " {}"@
            } else {
                target.source() + " { "@ + comma_separated(Self::record_items(inits)) + " }"@
            },
        }
    }
}

/// Adding one item behind a list of items adds it to the text, behind a
/// `, ` unless it is the first.
proof fn lemma_comma_separated_push(items: Seq<Seq<char>>, n: int)
    requires
        0 <= n < items.len(),
    ensures
        comma_separated(items.take(n + 1)) == if n == 0 {
            items[0]
        } else {
            comma_separated(items.take(n)) + ", "@ + items[n]
        },
{
    assert(items.take(n + 1).drop_last() =~= items.take(n));
}

impl Target {
    /// The path that names the target in an expression.
    pub fn to_source(&self) -> (r: String)
        ensures
            r@ == self@.source(),
    {
        match self {
            Target::Type(name) => name.clone(),
            Target::SelfVariant { position: _, ident } => {
                let mut out = "Self::".to_owned();
                out.append(ident.as_str());
                out
            },
        }
    }
}

impl Constructor {
    /// The constructor as Rust source.
    pub fn to_source(&self) -> (r: String)
        ensures
            r@ == self@.source(),
    {
        match self {
            Constructor::Unit(target) => target.to_source(),
            Constructor::Tuple(target, args) => {
                let mut out = target.to_source();
                out.append("(");
                let ghost head = out@;
                let ghost items = ConstructorView::tuple_items(views(args@));
                let mut i: usize = 0;
                while i < args.len()
                    invariant
                        i <= args.len(),
                        items == ConstructorView::tuple_items(views(args@)),
                        out@ == head + comma_separated(items.take(i as int)),
                    decreases args.len() - i,
                {
                    proof {
                        lemma_comma_separated_push(items, i as int);
                    }
                    if i > 0 {
                        out.append(", ");
                    }
                    out.append(args[i].tokens.as_str());
                    out.append("::default()");
                    assert(out@ =~= head + comma_separated(items.take(i + 1)));
                    i += 1;
                }
                assert(items.take(i as int) =~= items);
                out.append(")");
                out
            },
            Constructor::Record(target, inits) => {
                let mut out = target.to_source();
                if inits.len() == 0 {
                    out.append(" {}");
                    return out;
                }
                out.append(" { ");
                let ghost head = out@;
                let ghost items = ConstructorView::record_items(views(inits@));
                let mut i: usize = 0;
                while i < inits.len()
                    invariant
                        i <= inits.len(),
                        items == ConstructorView::record_items(views(inits@)),
                        out@ == head + comma_separated(items.take(i as int)),
                    decreases inits.len() - i,
                {
                    proof {
                        lemma_comma_separated_push(items, i as int);
                    }
                    if i > 0 {
                        out.append(", ");
                    }
                    out.append(inits[i].name.as_str());
                    out.append(": ");
                    out.append(inits[i].ty.tokens.as_str());
                    out.append("::default()");
                    assert(out@ =~= head + comma_separated(items.take(i + 1)));
                    i += 1;
                }
                assert(items.take(i as int) =~= items);
                out.append(" }");
                out
            },
        }
    }
}

} // verus!
