//! Which variant of an enum is the default one.
//!
//! A variant is marked when its first attribute is `default`. Only the
//! first attribute counts: a marker behind a doc comment or any other
//! attribute is not seen.

use crate::constructor::{construct, synthesize, Constructor, ConstructorView, Target, TargetView};
use crate::error::DeriveError;
use crate::syntax::{views, FieldShape, FieldShapeView, Variant, VariantView};
use vstd::prelude::*;

verus! {

/// The name of the attribute that marks the default variant.
pub const DEFAULT_MARKER: &'static str = "default";

/// Whether the first attribute of the variant is the default marker;
/// `None` for a variant without attributes.
pub open spec fn first_attr_is_marker(variant: VariantView) -> Option<bool> {
    if variant.attrs.len() == 0 {
        None
    } else {
        Some(variant.attrs[0].path.is_ident(DEFAULT_MARKER@))
    }
}

/// Whether the variant is marked as the default.
pub open spec fn is_marked(variant: VariantView) -> bool {
    first_attr_is_marker(variant) == Some(true)
}

/// The positions of the marked variants, in ascending order.
pub open spec fn marked(variants: Seq<VariantView>) -> Seq<int>
    decreases variants.len(),
{
    if variants.len() == 0 {
        Seq::empty()
    } else {
        let before = marked(variants.drop_last());
        if is_marked(variants.last()) {
            before.push(variants.len() - 1)
        } else {
            before
        }
    }
}

/// The position of the default variant: the only marked one. An enum
/// without variants, without a marked variant, or with several, has none.
pub open spec fn select(variants: Seq<VariantView>) -> Result<int, DeriveError> {
    let found = marked(variants);
    if variants.len() == 0 {
        Err(DeriveError::EmptyEnum)
    } else if found.len() == 0 {
        Err(DeriveError::MissingDefaultMarker)
    } else if found.len() == 1 {
        Ok(found[0])
    } else {
        Err(
            DeriveError::DuplicateDefaultMarker {
                first: found[0] as usize,
                second: found[1] as usize,
            },
        )
    }
}

/// The marked positions among the first `k` variants are the start of the
/// marked positions among all.
pub proof fn lemma_marked_prefix(variants: Seq<VariantView>, k: int)
    requires
        0 <= k <= variants.len(),
    ensures
        marked(variants.take(k)).len() <= marked(variants).len(),
        marked(variants.take(k)) == marked(variants).take(marked(variants.take(k)).len() as int),
    decreases variants.len(),
{
    if k == variants.len() {
        assert(variants.take(k) =~= variants);
        assert(marked(variants).take(marked(variants).len() as int) =~= marked(variants));
    } else {
        lemma_marked_prefix(variants.drop_last(), k);
        assert(variants.drop_last().take(k) =~= variants.take(k));
        let before = marked(variants.drop_last());
        let part = marked(variants.take(k));
        assert(part =~= marked(variants).take(part.len() as int));
    }
}

/// Every listed position is that of a marked variant, the list ascends,
/// and no marked variant is left out.
pub proof fn lemma_marked_exact(variants: Seq<VariantView>)
    ensures
        forall|j: int|
            0 <= j < marked(variants).len() ==> 0 <= (#[trigger] marked(variants)[j])
                < variants.len() && is_marked(variants[marked(variants)[j]]),
        forall|i: int, j: int|
            0 <= i < j < marked(variants).len() ==> marked(variants)[i] < marked(variants)[j],
        forall|i: int|
            0 <= i < variants.len() && is_marked(#[trigger] variants[i]) ==> marked(
                variants,
            ).contains(i),
    decreases variants.len(),
{
    if variants.len() > 0 {
        let init = variants.drop_last();
        lemma_marked_exact(init);
        let before = marked(init);
        let all = marked(variants);
        assert forall|i: int| 0 <= i < variants.len() && is_marked(
            #[trigger] variants[i],
        ) implies all.contains(i) by {
            if i < variants.len() - 1 {
                assert(is_marked(init[i]));
                let j = choose|j: int| 0 <= j < before.len() && before[j] == i;
                assert(all[j] == i);
            } else {
                assert(all[all.len() - 1] == i);
            }
        }
        assert forall|j: int| 0 <= j < all.len() implies 0 <= (#[trigger] all[j]) < variants.len()
            && is_marked(variants[all[j]]) by {
            if j < before.len() {
                assert(is_marked(init[before[j]]));
            }
        }
    }
}

/// Whether the first attribute of the variant is the default marker;
/// `None` for a variant without attributes.
pub fn has_default_attr(variant: &Variant) -> (r: Option<bool>)
    ensures
        r == first_attr_is_marker(variant@),
{
    if variant.attrs.len() == 0 {
        return None;
    }
    Some(variant.attrs[0].path.is_ident(DEFAULT_MARKER))
}

/// Finds the default variant of an enum: the only one that is marked.
pub fn select_default(variants: &Vec<Variant>) -> (r: Result<usize, DeriveError>)
    ensures
        match r {
            Ok(i) => i < variants.len() && select(views(variants@)) == Ok::<int, DeriveError>(
                i as int,
            ),
            Err(e) => select(views(variants@)) == Err::<int, DeriveError>(e),
        },
{
    let ghost all = views(variants@);
    if variants.len() == 0 {
        return Err(DeriveError::EmptyEnum);
    }
    let mut first: Option<usize> = None;
    let mut i: usize = 0;
    while i < variants.len()
        invariant
            i <= variants.len(),
            all == views(variants@),
            match first {
                Some(f) => f < i && marked(all.take(i as int)) == seq![f as int],
                None => marked(all.take(i as int)) == Seq::<int>::empty(),
            },
        decreases variants.len() - i,
    {
        let here = match has_default_attr(&variants[i]) {
            Some(is_default) => is_default,
            None => false,
        };
        proof {
            assert(all.take(i + 1).drop_last() =~= all.take(i as int));
            assert(all.take(i + 1).last() == variants@[i as int]@);
        }
        if here {
            match first {
                Some(f) => {
                    proof {
                        lemma_marked_prefix(all, i + 1);
                        assert(marked(all.take(i + 1)) == seq![f as int, i as int]);
                        assert(marked(all)[0] == marked(all).take(2)[0]);
                        assert(marked(all)[1] == marked(all).take(2)[1]);
                    }
                    return Err(DeriveError::DuplicateDefaultMarker { first: f, second: i });
                },
                None => {
                    first = Some(i);
                },
            }
        }
        i += 1;
    }
    proof {
        assert(all.take(i as int) =~= all);
    }
    match first {
        Some(f) => Ok(f),
        None => Err(DeriveError::MissingDefaultMarker),
    }
}

/// The default variant of an enum as something to construct: a variant
/// of `Self`, at its position and under its name.
pub open spec fn variant_target(variants: Seq<VariantView>, position: int) -> TargetView {
    TargetView::SelfVariant { position, ident: variants[position].ident }
}

/// What is built for an enum: the constructor of its default variant,
/// written as a variant of `Self`, and the fields of that variant.
pub open spec fn enum_default(variants: Seq<VariantView>) -> Result<
    (ConstructorView, FieldShapeView),
    DeriveError,
> {
    match select(variants) {
        Ok(i) => Ok(
            (
                construct(variant_target(variants, i), variants[i].fields),
                variants[i].fields,
            ),
        ),
        Err(e) => Err(e),
    }
}

/// The constructor for an enum, together with the fields that it
/// constructs: those of the default variant.
///
/// The fields of the default variant have to be well formed; those of the
/// other variants are never looked at.
pub fn enum_case(variants: &Vec<Variant>) -> (r: Result<(Constructor, FieldShape), DeriveError>)
    requires
        select(views(variants@)) matches Ok(i) ==> views(variants@)[i].fields.well_formed(),
    ensures
        match r {
            Ok((constructor, fields)) => enum_default(views(variants@)) == Ok::<
                (ConstructorView, FieldShapeView),
                DeriveError,
            >((constructor@, fields@)),
            Err(e) => enum_default(views(variants@)) == Err::<
                (ConstructorView, FieldShapeView),
                DeriveError,
            >(e),
        },
{
    match select_default(variants) {
        Ok(i) => {
            let variant = &variants[i];
            let target = Target::SelfVariant { position: i, ident: variant.ident.clone() };
            let constructor = synthesize(target, &variant.fields);
            Ok((constructor, variant.fields.clone()))
        },
        Err(e) => Err(e),
    }
}

} // verus!
