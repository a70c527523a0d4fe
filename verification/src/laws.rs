//! The guarantees the generation pass gives, stated and proved over the
//! specification functions that the executable functions' contracts pin
//! their results to:
//!
//! - a product declaration with exactly one field yields exactly one
//!   constructor, converting from that field's type, and any other product
//!   shape fails with the unsupported-shape diagnostic;
//! - a unit or multi-field variant of a sum declaration never produces a
//!   constructor;
//! - an origin type shared by two provisional variants produces no
//!   constructor at all, while a provisional variant whose origin type no
//!   other provisional variant shares always produces one;
//! - a variant annotated with the skip marker never produces a
//!   constructor;
//! - an unrecognized annotation token on any variant, whatever its shape,
//!   fails the whole declaration with the malformed-annotation diagnostic.

use vstd::prelude::*;

use crate::annotation::spec_skip_attribute;
use crate::annotation::tokens_recognized;
use crate::classifier::candidate_of;
use crate::classifier::is_provisional;
use crate::classifier::shape_is_single;
use crate::classifier::shape_origin;
use crate::classifier::shape_wiring;
use crate::classifier::spec_classify_sum;
use crate::diagnostics::unsupported_shape_diag;
use crate::generate::spec_derive_from_one;
use crate::generate::spec_from_enum;
use crate::model::CandidateModel;
use crate::model::CtorModel;
use crate::model::DeclKindModel;
use crate::model::DeclModel;
use crate::model::DiagModel;
use crate::model::DiagnosticKind;
use crate::model::TargetModel;
use crate::model::VariantModel;
use crate::resolver::keep_unique;
use crate::resolver::origin_count;
use crate::resolver::origin_unique;
use crate::resolver::spec_resolve;
use crate::synthesizer::ctor_of;
use crate::synthesizer::spec_synthesize;

verus! {

/// The canonical key of the type a single-field variant converts from.
pub open spec fn variant_origin(v: VariantModel) -> Seq<char>
    recommends
        shape_is_single(v.shape),
{
    shape_origin(v.shape)
}

/// A well-formed sum declaration names each variant once.
pub open spec fn distinct_variant_names(variants: Seq<VariantModel>) -> bool {
    forall|i: int, j: int|
        0 <= i < j < variants.len() ==> variants[i].name != variants[j].name
}

/// No annotation anywhere in the declaration holds an unrecognized token.
pub open spec fn annotations_recognized(variants: Seq<VariantModel>) -> bool {
    forall|i: int|
        0 <= i < variants.len() ==> tokens_recognized(#[trigger] variants[i].annotation_tokens)
}

/// The constructor builds the variant with the given name.
pub open spec fn ctor_targets_variant(c: CtorModel, name: Seq<char>) -> bool {
    c.target matches TargetModel::Variant { variant, .. } && variant == name
}

// ---------------------------------------------------------------------------
// How many provisional variants convert from a given origin type
// ---------------------------------------------------------------------------

/// How many single-field, unannotated variants convert from the given
/// origin type.
pub open spec fn provisional_origin_count(variants: Seq<VariantModel>, origin: Seq<char>) -> nat
    decreases variants.len(),
{
    if variants.len() == 0 {
        0
    } else {
        provisional_origin_count(variants.drop_last(), origin) + if is_provisional(
            variants.last(),
        ) && variant_origin(variants.last()) == origin {
            1nat
        } else {
            0nat
        }
    }
}

proof fn lemma_provisional_count_at_least_one(variants: Seq<VariantModel>, i: int)
    requires
        0 <= i < variants.len(),
        is_provisional(variants[i]),
    ensures
        provisional_origin_count(variants, variant_origin(variants[i])) >= 1,
    decreases variants.len(),
{
    if i < variants.len() - 1 {
        lemma_provisional_count_at_least_one(variants.drop_last(), i);
    }
}

proof fn lemma_provisional_count_at_least_two(variants: Seq<VariantModel>, i: int, j: int)
    requires
        0 <= i < j < variants.len(),
        is_provisional(variants[i]),
        is_provisional(variants[j]),
        variant_origin(variants[i]) == variant_origin(variants[j]),
    ensures
        provisional_origin_count(variants, variant_origin(variants[i])) >= 2,
    decreases variants.len(),
{
    if j == variants.len() - 1 {
        lemma_provisional_count_at_least_one(variants.drop_last(), i);
    } else {
        lemma_provisional_count_at_least_two(variants.drop_last(), i, j);
    }
}

proof fn lemma_provisional_count_zero(variants: Seq<VariantModel>, origin: Seq<char>)
    requires
        forall|j: int|
            0 <= j < variants.len() && is_provisional(#[trigger] variants[j]) ==> variant_origin(
                variants[j],
            ) != origin,
    ensures
        provisional_origin_count(variants, origin) == 0,
    decreases variants.len(),
{
    if variants.len() > 0 {
        assert(forall|j: int|
            0 <= j < variants.drop_last().len() && is_provisional(
                #[trigger] variants.drop_last()[j],
            ) ==> variant_origin(variants.drop_last()[j]) != origin);
        lemma_provisional_count_zero(variants.drop_last(), origin);
    }
}

proof fn lemma_provisional_count_exactly_one(variants: Seq<VariantModel>, i: int)
    requires
        0 <= i < variants.len(),
        is_provisional(variants[i]),
        forall|j: int|
            0 <= j < variants.len() && j != i && is_provisional(#[trigger] variants[j])
                ==> variant_origin(variants[j]) != variant_origin(variants[i]),
    ensures
        provisional_origin_count(variants, variant_origin(variants[i])) == 1,
    decreases variants.len(),
{
    if i == variants.len() - 1 {
        assert(forall|j: int|
            0 <= j < variants.drop_last().len() && is_provisional(
                #[trigger] variants.drop_last()[j],
            ) ==> variant_origin(variants.drop_last()[j]) != variant_origin(variants[i]));
        lemma_provisional_count_zero(variants.drop_last(), variant_origin(variants[i]));
    } else {
        assert(forall|j: int|
            0 <= j < variants.drop_last().len() && j != i && is_provisional(
                #[trigger] variants.drop_last()[j],
            ) ==> variant_origin(variants.drop_last()[j]) != variant_origin(variants[i]));
        lemma_provisional_count_exactly_one(variants.drop_last(), i);
    }
}

// ---------------------------------------------------------------------------
// What classification yields
// ---------------------------------------------------------------------------

/// Classification of a sum declaration only ever fails with the
/// malformed-annotation diagnostic.
proof fn lemma_classify_err_is_malformed(variants: Seq<VariantModel>)
    ensures
        spec_classify_sum(variants) matches Err(d) ==> d.kind
            == DiagnosticKind::MalformedAnnotation,
    decreases variants.len(),
{
    if variants.len() > 0 {
        lemma_classify_err_is_malformed(variants.drop_last());
    }
}

/// When every annotation token is recognized, classification succeeds.
proof fn lemma_classify_ok(variants: Seq<VariantModel>)
    requires
        annotations_recognized(variants),
    ensures
        spec_classify_sum(variants) is Ok,
    decreases variants.len(),
{
    if variants.len() > 0 {
        assert(forall|i: int|
            0 <= i < variants.drop_last().len() ==> tokens_recognized(
                #[trigger] variants.drop_last()[i].annotation_tokens,
            ));
        lemma_classify_ok(variants.drop_last());
    }
}

/// Every provisional candidate stems from a single-field, unannotated
/// variant, and carries that variant's name and origin type.
proof fn lemma_classify_member_source(variants: Seq<VariantModel>, k: int)
    requires
        spec_classify_sum(variants) is Ok,
        0 <= k < spec_classify_sum(variants)->Ok_0.len(),
    ensures
        exists|i: int|
            0 <= i < variants.len() && is_provisional(#[trigger] variants[i])
                && spec_classify_sum(variants)->Ok_0[k] == candidate_of(variants[i]),
    decreases variants.len(),
{
    let cands = spec_classify_sum(variants)->Ok_0;
    let prefix = variants.drop_last();
    let prefix_cands = spec_classify_sum(prefix)->Ok_0;
    let v = variants.last();
    if shape_is_single(v.shape) && spec_skip_attribute(v) == Ok::<bool, DiagModel>(false)
        && k == prefix_cands.len() {
        assert(is_provisional(variants[variants.len() - 1]) && cands[k] == candidate_of(
            variants[variants.len() - 1],
        ));
    } else {
        lemma_classify_member_source(prefix, k);
        let i = choose|i: int|
            0 <= i < prefix.len() && is_provisional(#[trigger] prefix[i]) && prefix_cands[k]
                == candidate_of(prefix[i]);
        assert(is_provisional(variants[i]) && cands[k] == candidate_of(variants[i]));
    }
}

/// Every single-field, unannotated variant contributes its candidate to
/// the provisional list.
proof fn lemma_classify_member_target(variants: Seq<VariantModel>, i: int)
    requires
        spec_classify_sum(variants) is Ok,
        0 <= i < variants.len(),
        is_provisional(variants[i]),
    ensures
        exists|k: int|
            0 <= k < spec_classify_sum(variants)->Ok_0.len() && #[trigger] spec_classify_sum(
                variants,
            )->Ok_0[k] == candidate_of(variants[i]),
    decreases variants.len(),
{
    let cands = spec_classify_sum(variants)->Ok_0;
    let prefix = variants.drop_last();
    let prefix_cands = spec_classify_sum(prefix)->Ok_0;
    if i == variants.len() - 1 {
        assert(cands[prefix_cands.len() as int] == candidate_of(variants[i]));
    } else {
        lemma_classify_member_target(prefix, i);
        let k = choose|k: int|
            0 <= k < prefix_cands.len() && #[trigger] prefix_cands[k] == candidate_of(prefix[i]);
        assert(cands[k] == candidate_of(variants[i]));
    }
}

/// The provisional candidate list counts each origin type exactly as often
/// as the single-field, unannotated variants do.
proof fn lemma_classify_origin_count(variants: Seq<VariantModel>, origin: Seq<char>)
    requires
        spec_classify_sum(variants) is Ok,
    ensures
        origin_count(spec_classify_sum(variants)->Ok_0, origin) == provisional_origin_count(
            variants,
            origin,
        ),
    decreases variants.len(),
{
    if variants.len() > 0 {
        let prefix = variants.drop_last();
        let prefix_cands = spec_classify_sum(prefix)->Ok_0;
        let v = variants.last();
        lemma_classify_origin_count(prefix, origin);
        if shape_is_single(v.shape) && spec_skip_attribute(v) == Ok::<bool, DiagModel>(false) {
            assert(prefix_cands.push(candidate_of(v)).drop_last() =~= prefix_cands);
        }
    }
}

// ---------------------------------------------------------------------------
// What ambiguity resolution yields
// ---------------------------------------------------------------------------

/// Every resolved candidate is one of the provisional candidates, and its
/// origin type is unique among them.
proof fn lemma_keep_unique_element(all: Seq<CandidateModel>, cands: Seq<CandidateModel>, k: int)
    requires
        0 <= k < keep_unique(all, cands).len(),
    ensures
        cands.contains(keep_unique(all, cands)[k]),
        origin_unique(all, keep_unique(all, cands)[k].origin),
    decreases cands.len(),
{
    let kept = keep_unique(all, cands);
    let rest = keep_unique(all, cands.drop_last());
    if k < rest.len() {
        lemma_keep_unique_element(all, cands.drop_last(), k);
        let j = choose|j: int| 0 <= j < cands.drop_last().len() && cands.drop_last()[j] == rest[k];
        assert(cands[j] == kept[k]);
    } else {
        assert(cands[cands.len() - 1] == kept[k]);
    }
}

/// A provisional candidate whose origin type is unique survives
/// resolution.
proof fn lemma_keep_unique_contains(all: Seq<CandidateModel>, cands: Seq<CandidateModel>, idx: int)
    requires
        0 <= idx < cands.len(),
        origin_unique(all, cands[idx].origin),
    ensures
        keep_unique(all, cands).contains(cands[idx]),
    decreases cands.len(),
{
    let kept = keep_unique(all, cands);
    let rest = keep_unique(all, cands.drop_last());
    if idx == cands.len() - 1 {
        assert(kept[rest.len() as int] == cands[idx]);
    } else {
        lemma_keep_unique_contains(all, cands.drop_last(), idx);
        let j = choose|j: int|
            0 <= j < rest.len() && rest[j] == cands.drop_last()[idx];
        assert(kept[j] == cands[idx]);
    }
}

// ---------------------------------------------------------------------------
// Product declarations
// ---------------------------------------------------------------------------

/// A product declaration with exactly one field — named or unnamed —
/// succeeds and yields exactly one constructor, converting from the
/// field's declared type into the declared type itself.
pub proof fn lemma_product_single_field(decl: DeclModel)
    requires
        decl.kind matches DeclKindModel::Product { shape } && shape_is_single(shape),
    ensures
        spec_derive_from_one(decl) matches Ok(ctors) && ctors.len() == 1 && ctors[0]
            == ctor_of(
            decl.ident,
            CandidateModel {
                origin: shape_origin(decl.kind->shape),
                target: TargetModel::Product { wiring: shape_wiring(decl.kind->shape) },
            },
        ),
{
}

/// A product declaration with zero fields or more than one field fails
/// with the unsupported-shape diagnostic.
pub proof fn lemma_product_wrong_arity(decl: DeclModel)
    requires
        decl.kind matches DeclKindModel::Product { shape } && !shape_is_single(shape),
    ensures
        spec_derive_from_one(decl) == Err::<Seq<CtorModel>, DiagModel>(
            unsupported_shape_diag(decl.ident),
        ),
        spec_derive_from_one(decl)->Err_0.kind == DiagnosticKind::UnsupportedShape,
{
}

/// Generation is idempotent: the contract of the generation pass pins its
/// result to `spec_derive_from_one` of the declaration alone, so any two
/// passes over the same declaration yield identical output — there is no
/// hidden ordering nondeterminism.
pub proof fn lemma_generation_deterministic(
    decl: DeclModel,
    first: Result<Seq<CtorModel>, DiagModel>,
    second: Result<Seq<CtorModel>, DiagModel>,
)
    requires
        first == spec_derive_from_one(decl),
        second == spec_derive_from_one(decl),
    ensures
        first == second,
{
}

// ---------------------------------------------------------------------------
// Sum declarations
// ---------------------------------------------------------------------------

/// When no provisional variant carries the given name, no generated
/// constructor targets it.
proof fn lemma_no_provisional_no_ctor(ident: Seq<char>, variants: Seq<VariantModel>, name: Seq<char>)
    requires
        forall|j: int|
            0 <= j < variants.len() && is_provisional(#[trigger] variants[j]) ==> variants[j].name
                != name,
    ensures
        spec_from_enum(ident, variants) matches Ok(ctors) ==> forall|k: int|
            0 <= k < ctors.len() ==> !ctor_targets_variant(#[trigger] ctors[k], name),
{
    if spec_classify_sum(variants) is Ok {
        let cands = spec_classify_sum(variants)->Ok_0;
        let resolved = spec_resolve(cands);
        let ctors = spec_synthesize(ident, resolved);
        assert forall|k: int| 0 <= k < ctors.len() implies !ctor_targets_variant(
            #[trigger] ctors[k],
            name,
        ) by {
            assert(ctors[k] == ctor_of(ident, resolved[k]));
            lemma_keep_unique_element(cands, cands, k);
            let j = choose|j: int| 0 <= j < cands.len() && cands[j] == resolved[k];
            lemma_classify_member_source(variants, j);
            let i = choose|i: int|
                0 <= i < variants.len() && is_provisional(#[trigger] variants[i]) && cands[j]
                    == candidate_of(variants[i]);
            assert(variants[i].name != name);
        }
    }
}

/// A unit variant and a multi-field variant never produce a constructor,
/// regardless of the other variants.
pub proof fn lemma_unit_and_multi_never_produce(
    ident: Seq<char>,
    variants: Seq<VariantModel>,
    i: int,
)
    requires
        distinct_variant_names(variants),
        0 <= i < variants.len(),
        !shape_is_single(variants[i].shape),
    ensures
        spec_from_enum(ident, variants) matches Ok(ctors) ==> forall|k: int|
            0 <= k < ctors.len() ==> !ctor_targets_variant(#[trigger] ctors[k], variants[i].name),
{
    lemma_no_provisional_no_ctor(ident, variants, variants[i].name);
}

/// A variant annotated with the skip marker never produces a constructor,
/// even if its field type is otherwise unique.
pub proof fn lemma_skip_never_produces(ident: Seq<char>, variants: Seq<VariantModel>, i: int)
    requires
        distinct_variant_names(variants),
        0 <= i < variants.len(),
        variants[i].annotation_tokens.len() > 0,
    ensures
        spec_from_enum(ident, variants) matches Ok(ctors) ==> forall|k: int|
            0 <= k < ctors.len() ==> !ctor_targets_variant(#[trigger] ctors[k], variants[i].name),
{
    lemma_no_provisional_no_ctor(ident, variants, variants[i].name);
}

/// When two or more variants have a single field of the same type, none of
/// them produces a constructor.
pub proof fn lemma_shared_origin_never_produces(
    ident: Seq<char>,
    variants: Seq<VariantModel>,
    i: int,
    j: int,
)
    requires
        distinct_variant_names(variants),
        0 <= i < variants.len(),
        0 <= j < variants.len(),
        i != j,
        is_provisional(variants[i]),
        is_provisional(variants[j]),
        variant_origin(variants[i]) == variant_origin(variants[j]),
    ensures
        spec_from_enum(ident, variants) matches Ok(ctors) ==> forall|k: int|
            0 <= k < ctors.len() ==> !ctor_targets_variant(#[trigger] ctors[k], variants[i].name),
{
    if spec_classify_sum(variants) is Ok {
        let cands = spec_classify_sum(variants)->Ok_0;
        let resolved = spec_resolve(cands);
        let ctors = spec_synthesize(ident, resolved);
        assert forall|k: int| 0 <= k < ctors.len() implies !ctor_targets_variant(
            #[trigger] ctors[k],
            variants[i].name,
        ) by {
            if ctor_targets_variant(ctors[k], variants[i].name) {
                assert(ctors[k] == ctor_of(ident, resolved[k]));
                lemma_keep_unique_element(cands, cands, k);
                let c = resolved[k];
                let m = choose|m: int| 0 <= m < cands.len() && cands[m] == c;
                lemma_classify_member_source(variants, m);
                let x = choose|x: int|
                    0 <= x < variants.len() && is_provisional(#[trigger] variants[x]) && cands[m]
                        == candidate_of(variants[x]);
                assert(variants[x].name == variants[i].name);
                assert(x == i);
                assert(c.origin == variant_origin(variants[i]));
                lemma_classify_origin_count(variants, c.origin);
                if i < j {
                    lemma_provisional_count_at_least_two(variants, i, j);
                } else {
                    lemma_provisional_count_at_least_two(variants, j, i);
                }
                assert(false);
            }
        }
    }
}

/// A provisional variant whose single field's type no other provisional
/// variant shares always produces its constructor.
pub proof fn lemma_unique_origin_produces(ident: Seq<char>, variants: Seq<VariantModel>, i: int)
    requires
        annotations_recognized(variants),
        0 <= i < variants.len(),
        is_provisional(variants[i]),
        forall|j: int|
            0 <= j < variants.len() && j != i && is_provisional(#[trigger] variants[j])
                ==> variant_origin(variants[j]) != variant_origin(variants[i]),
    ensures
        spec_from_enum(ident, variants) matches Ok(ctors) && ctors.contains(
            ctor_of(ident, candidate_of(variants[i])),
        ),
{
    lemma_classify_ok(variants);
    let cands = spec_classify_sum(variants)->Ok_0;
    let resolved = spec_resolve(cands);
    let ctors = spec_synthesize(ident, resolved);
    lemma_classify_member_target(variants, i);
    let k = choose|k: int|
        0 <= k < cands.len() && #[trigger] cands[k] == candidate_of(variants[i]);
    lemma_classify_origin_count(variants, variant_origin(variants[i]));
    lemma_provisional_count_exactly_one(variants, i);
    lemma_keep_unique_contains(cands, cands, k);
    let r = choose|r: int| 0 <= r < resolved.len() && resolved[r] == cands[k];
    assert(ctors[r] == ctor_of(ident, candidate_of(variants[i])));
}

/// An annotation using any token other than the recognized one on any
/// variant — whatever the variant's shape — fails the whole declaration
/// with the malformed-annotation diagnostic, producing zero constructors
/// even for otherwise-valid variants.
pub proof fn lemma_malformed_annotation_fails(ident: Seq<char>, variants: Seq<VariantModel>, i: int)
    requires
        0 <= i < variants.len(),
        !tokens_recognized(variants[i].annotation_tokens),
    ensures
        spec_from_enum(ident, variants) matches Err(d) && d.kind
            == DiagnosticKind::MalformedAnnotation,
    decreases variants.len(),
{
    if i == variants.len() - 1 {
        if spec_classify_sum(variants.drop_last()) is Err {
            lemma_classify_err_is_malformed(variants.drop_last());
        }
    } else {
        lemma_malformed_annotation_fails(ident, variants.drop_last(), i);
    }
}

} // verus!
