//! What holds of every derivation, proved from the definitions.

use crate::bounds::{field_types, is_field_type, bare_type_name, DEFAULT_BOUND};
use crate::constructor::{construct, ConstructorView, TargetView};
use crate::engine::{constructed, derived, DefaultImplView};
use crate::error::DeriveError;
use crate::selector::{is_marked, lemma_marked_exact, marked};
use crate::syntax::{BodyView, DeclarationView, FieldShapeView};
use vstd::prelude::*;

verus! {

/// A constructor has one default per field, of the field's declared
/// type and, for named fields, under the field's name, in declaration
/// order; a unit shape gives the bare target.
pub proof fn law_constructor_follows_fields(target: TargetView, shape: FieldShapeView)
    ensures
        match shape {
            FieldShapeView::Unit => construct(target, shape) == ConstructorView::Unit(target),
            FieldShapeView::Positional(fields) => {
                &&& construct(target, shape) matches ConstructorView::Tuple(built, args)
                &&& built == target
                &&& args.len() == fields.len()
                &&& forall|i: int| 0 <= i < fields.len() ==> args[i] == fields[i].ty
            },
            FieldShapeView::Named(fields) => {
                &&& construct(target, shape) matches ConstructorView::Record(built, inits)
                &&& built == target
                &&& inits.len() == fields.len()
                &&& forall|i: int|
                    0 <= i < fields.len() ==> inits[i].name == fields[i].ident->0 && inits[i].ty
                        == fields[i].ty
            },
        },
{
}

/// Every struct gets an impl, whose body constructs the struct, by its
/// own name, from its own fields.
pub proof fn law_struct_is_built_from_its_fields(decl: DeclarationView)
    requires
        decl.body is Struct,
    ensures
        derived(decl) matches Ok(generated) && generated.ident == decl.ident && generated.body
            == construct(TargetView::Type(decl.ident), decl.body->Struct_0),
{
}

/// An enum with exactly one marked variant gets an impl, whose body
/// constructs that variant, as a variant of `Self`, from its fields.
pub proof fn law_enum_is_built_from_its_marked_variant(decl: DeclarationView, k: int)
    requires
        decl.body matches BodyView::Enum(variants) && 0 <= k < variants.len() && is_marked(
            variants[k],
        ) && forall|i: int| 0 <= i < variants.len() && i != k ==> !is_marked(#[trigger] variants[i]),
    ensures
        derived(decl) matches Ok(generated) && generated.ident == decl.ident && generated.body
            == construct(
            TargetView::SelfVariant { position: k, ident: decl.body->Enum_0[k].ident },
            decl.body->Enum_0[k].fields,
        ),
{
    let variants = decl.body->Enum_0;
    lemma_marked_exact(variants);
    let found = marked(variants);
    assert(found.contains(k));
    if found.len() > 1 {
        assert(found[0] < found[1]);
        assert(is_marked(variants[found[0]]));
        assert(is_marked(variants[found[1]]));
    }
}

/// An enum that has variants, none of them marked, is refused for its
/// missing marker.
pub proof fn law_unmarked_enum_is_refused(decl: DeclarationView)
    requires
        decl.body matches BodyView::Enum(variants) && variants.len() > 0 && forall|i: int|
            0 <= i < variants.len() ==> !is_marked(#[trigger] variants[i]),
    ensures
        derived(decl) == Err::<DefaultImplView, DeriveError>(DeriveError::MissingDefaultMarker),
{
    let variants = decl.body->Enum_0;
    lemma_marked_exact(variants);
    let found = marked(variants);
    if found.len() > 0 {
        assert(is_marked(variants[found[0]]));
    }
}

/// An enum with two or more marked variants is refused for the
/// duplicate, and the error names the first two marked variants: `i` and
/// `j` where nothing before `j` but `i` is marked.
pub proof fn law_twice_marked_enum_is_refused(decl: DeclarationView, i: int, j: int)
    requires
        decl.body matches BodyView::Enum(variants) && variants.len() <= usize::MAX && 0 <= i < j
            < variants.len() && is_marked(variants[i]) && is_marked(variants[j]) && forall|
            k: int,
        |
            0 <= k < j && k != i ==> !is_marked(#[trigger] variants[k]),
    ensures
        derived(decl) == Err::<DefaultImplView, DeriveError>(
            DeriveError::DuplicateDefaultMarker { first: i as usize, second: j as usize },
        ),
{
    let variants = decl.body->Enum_0;
    lemma_marked_exact(variants);
    let found = marked(variants);
    assert(found.contains(i));
    assert(found.contains(j));
    let a = choose|a: int| 0 <= a < found.len() && found[a] == i;
    let b = choose|b: int| 0 <= b < found.len() && found[b] == j;
    assert(a < b) by {
        if b < a {
            assert(found[b] < found[a]);
        }
    }
    assert(a == 0) by {
        if a > 0 {
            assert(found[0] < found[a]);
            assert(is_marked(variants[found[0]]));
        }
    }
    assert(b == 1) by {
        if b > 1 {
            assert(found[0] < found[1] < found[b]);
            assert(is_marked(variants[found[1]]));
        }
    }
}

/// Whichever variants are marked, two or more of them make the
/// derivation fail for the duplicate.
pub proof fn law_two_markers_are_a_duplicate(decl: DeclarationView, i: int, j: int)
    requires
        decl.body matches BodyView::Enum(variants) && 0 <= i < j < variants.len() && is_marked(
            variants[i],
        ) && is_marked(variants[j]),
    ensures
        derived(decl) matches Err(DeriveError::DuplicateDefaultMarker { .. }),
{
    let variants = decl.body->Enum_0;
    lemma_marked_exact(variants);
    let found = marked(variants);
    assert(found.contains(i));
    assert(found.contains(j));
}

/// An enum without variants is refused as empty.
pub proof fn law_empty_enum_is_refused(decl: DeclarationView)
    requires
        decl.body matches BodyView::Enum(variants) && variants.len() == 0,
    ensures
        derived(decl) == Err::<DefaultImplView, DeriveError>(DeriveError::EmptyEnum),
{
}

/// A union is refused as an unsupported shape.
pub proof fn law_union_is_refused(decl: DeclarationView)
    requires
        decl.body is Union,
    ensures
        derived(decl) == Err::<DefaultImplView, DeriveError>(DeriveError::UnsupportedShape),
{
}

/// In a generated impl the generic parameters are those of the
/// declaration, in order, and a parameter has the `Default` bound added
/// if and only if a constructed field has the parameter as its whole
/// type: the parameter's bare name, with no leading `::`, no arguments
/// and no self qualifier. A parameter without such a field keeps its
/// bounds.
pub proof fn law_bound_follows_direct_use(decl: DeclarationView, p: int)
    requires
        derived(decl) is Ok,
        0 <= p < decl.generics.len(),
    ensures
        ({
            let generated = derived(decl)->Ok_0;
            let shape = constructed(decl)->Ok_0.1;
            let before = decl.generics[p];
            let after = generated.generics[p];
            let used = exists|f: int|
                0 <= f < shape.fields().len() && bare_type_name(
                    #[trigger] shape.fields()[f].ty,
                ) == Some(before.ident);
            &&& generated.generics.len() == decl.generics.len()
            &&& after.ident == before.ident
            &&& used ==> after.bounds == before.bounds.push(DEFAULT_BOUND@)
            &&& !used ==> after.bounds == before.bounds
            &&& used <==> after.bounds.len() == before.bounds.len() + 1
        }),
{
    let shape = constructed(decl)->Ok_0.1;
    let before = decl.generics[p];
    let types = field_types(shape);
    if is_field_type(types, before.ident) {
        let f = choose|f: int|
            0 <= f < types.len() && bare_type_name(#[trigger] types[f]) == Some(before.ident);
        assert(bare_type_name(shape.fields()[f].ty) == Some(before.ident));
    } else {
        assert forall|f: int| 0 <= f < shape.fields().len() implies bare_type_name(
            #[trigger] shape.fields()[f].ty,
        ) != Some(before.ident) by {
            assert(types[f] == shape.fields()[f].ty);
        }
    }
}

} // verus!
