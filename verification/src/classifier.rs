//! The declaration classifier: reduces a declaration to the list of
//! conversion candidates eligible for constructor generation.
//!
//! A product declaration yields exactly one candidate when it declares
//! exactly one field, and the unsupported-shape diagnostic otherwise. A sum
//! declaration is processed variant by variant in declaration order: a
//! malformed annotation on any variant — whatever its shape — aborts the
//! whole declaration; unit and multi-field variants are excluded silently,
//! skipped variants are excluded silently, and the remaining single-field
//! variants become provisional candidates for the ambiguity resolver.

use vstd::pervasive::unreached;
use vstd::prelude::*;

use crate::annotation::get_skip_attribute;
use crate::annotation::spec_skip_attribute;
use crate::diagnostics::invalid_number_of_fields_in_struct_error;
use crate::diagnostics::unsupported_shape_diag;
use crate::model::CandidateModel;
use crate::model::ConversionCandidate;
use crate::model::DiagModel;
use crate::model::Diagnostic;
use crate::model::EmissionTarget;
use crate::model::FieldShape;
use crate::model::FieldWiring;
use crate::model::ShapeModel;
use crate::model::TargetModel;
use crate::model::Variant;
use crate::model::VariantModel;
use crate::model::WiringModel;

verus! {

/// The shape declares exactly one field, named or positional.
pub open spec fn shape_is_single(s: ShapeModel) -> bool {
    s is SingleNamed || s is SingleUnnamed
}

/// The canonical key of a single field's type.
pub open spec fn shape_origin(s: ShapeModel) -> Seq<char>
    recommends
        shape_is_single(s),
{
    match s {
        ShapeModel::SingleNamed { ty, .. } => ty,
        ShapeModel::SingleUnnamed { ty } => ty,
        _ => Seq::empty(),
    }
}

/// How a constructor built for this shape stores the incoming value.
pub open spec fn shape_wiring(s: ShapeModel) -> WiringModel
    recommends
        shape_is_single(s),
{
    match s {
        ShapeModel::SingleNamed { name, .. } => WiringModel::Named { field: name },
        _ => WiringModel::Positional,
    }
}

/// The candidate a single-field variant contributes: origin type = the
/// field's type, target = that variant's constructor shape.
pub open spec fn candidate_of(v: VariantModel) -> CandidateModel
    recommends
        shape_is_single(v.shape),
{
    CandidateModel {
        origin: shape_origin(v.shape),
        target: TargetModel::Variant { variant: v.name, wiring: shape_wiring(v.shape) },
    }
}

/// A variant that survives classification of a sum type: it declares
/// exactly one field and carries no annotation. (A variant whose annotation
/// is malformed aborts classification altogether, so only the empty
/// annotation passes a single-field variant through.)
pub open spec fn is_provisional(v: VariantModel) -> bool {
    shape_is_single(v.shape) && v.annotation_tokens.len() == 0
}

/// What classifying a product declaration yields: one candidate targeting
/// the product type directly when the declaration has exactly one field,
/// and the unsupported-shape diagnostic otherwise.
pub open spec fn spec_classify_product(ident: Seq<char>, shape: ShapeModel) -> Result<
    CandidateModel,
    DiagModel,
> {
    if shape_is_single(shape) {
        Ok(
            CandidateModel {
                origin: shape_origin(shape),
                target: TargetModel::Product { wiring: shape_wiring(shape) },
            },
        )
    } else {
        Err(unsupported_shape_diag(ident))
    }
}

/// What classifying a sum declaration yields: the provisional candidates of
/// its single-field, unannotated variants in declaration order, or the
/// malformed-annotation diagnostic of the first variant — of any shape —
/// whose annotation holds an unrecognized token.
pub open spec fn spec_classify_sum(variants: Seq<VariantModel>) -> Result<
    Seq<CandidateModel>,
    DiagModel,
>
    decreases variants.len(),
{
    if variants.len() == 0 {
        Ok(Seq::empty())
    } else {
        match spec_classify_sum(variants.drop_last()) {
            Err(diag) => Err(diag),
            Ok(prefix) => {
                let v = variants.last();
                match spec_skip_attribute(v) {
                    Err(diag) => Err(diag),
                    Ok(skipped) => if shape_is_single(v.shape) && !skipped {
                        Ok(prefix.push(candidate_of(v)))
                    } else {
                        Ok(prefix)
                    },
                }
            },
        }
    }
}

/// Builds the candidate a single-field variant contributes.
fn candidate_of_variant(v: &Variant) -> (c: ConversionCandidate)
    requires
        shape_is_single(v@.shape),
    ensures
        c@ == candidate_of(v@),
{
    match &v.shape {
        FieldShape::SingleNamed { name, ty } => ConversionCandidate {
            origin: ty.clone(),
            target: EmissionTarget::Variant {
                variant: v.name.clone(),
                wiring: FieldWiring::Named { field: name.clone() },
            },
        },
        FieldShape::SingleUnnamed { ty } => ConversionCandidate {
            origin: ty.clone(),
            target: EmissionTarget::Variant {
                variant: v.name.clone(),
                wiring: FieldWiring::Positional,
            },
        },
        _ => unreached(),
    }
}

/// Classifies a product declaration with the given field list.
pub fn classify_product(target_type: &String, shape: &FieldShape) -> (r: Result<
    ConversionCandidate,
    Diagnostic,
>)
    ensures
        match spec_classify_product(target_type@, shape@) {
            Ok(cand) => r matches Ok(c) && c@ == cand,
            Err(diag) => r matches Err(d) && d@ == diag,
        },
{
    match shape {
        FieldShape::SingleNamed { name, ty } => Ok(
            ConversionCandidate {
                origin: ty.clone(),
                target: EmissionTarget::Product { wiring: FieldWiring::Named { field: name.clone() } },
            },
        ),
        FieldShape::SingleUnnamed { ty } => Ok(
            ConversionCandidate {
                origin: ty.clone(),
                target: EmissionTarget::Product { wiring: FieldWiring::Positional },
            },
        ),
        _ => Err(invalid_number_of_fields_in_struct_error(target_type)),
    }
}

/// Classifies a sum declaration: walks the variants in declaration order
/// and collects the provisional candidates, aborting with the first
/// malformed annotation.
pub fn classify_sum(variants: &Vec<Variant>) -> (r: Result<Vec<ConversionCandidate>, Diagnostic>)
    ensures
        match spec_classify_sum(variants@.map_values(|v: Variant| v@)) {
            Ok(cands) => r matches Ok(cs) && cs@.map_values(|c: ConversionCandidate| c@)
                == cands,
            Err(diag) => r matches Err(d) && d@ == diag,
        },
{
    let ghost vm = variants@.map_values(|v: Variant| v@);
    let mut provisional: Vec<ConversionCandidate> = Vec::new();
    let n = variants.len();
    let mut i: usize = 0;
    proof {
        assert(vm.take(0) =~= Seq::<VariantModel>::empty());
        assert(provisional@.map_values(|c: ConversionCandidate| c@) =~= Seq::<
            CandidateModel,
        >::empty());
    }
    while i < n
        invariant
            i <= n,
            n == variants.len(),
            vm == variants@.map_values(|v: Variant| v@),
            spec_classify_sum(vm.take(i as int)) == Ok::<_, DiagModel>(
                provisional@.map_values(|c: ConversionCandidate| c@),
            ),
        decreases n - i,
    {
        let v = &variants[i];
        proof {
            assert(vm.take(i + 1).drop_last() =~= vm.take(i as int));
            assert(vm.take(i + 1).last() == v@);
        }
        match get_skip_attribute(v) {
            Err(diag) => {
                proof {
                    assert(spec_classify_sum(vm.take(i + 1)) == Err::<Seq<CandidateModel>, _>(
                        diag@,
                    ));
                    lemma_classify_sum_error_persists(vm, i + 1);
                }
                return Err(diag);
            },
            Ok(true) => {},
            Ok(false) => {
                let single = match &v.shape {
                    FieldShape::SingleNamed { .. } => true,
                    FieldShape::SingleUnnamed { .. } => true,
                    _ => false,
                };
                if single {
                    let cand = candidate_of_variant(v);
                    let ghost prev = provisional@.map_values(|c: ConversionCandidate| c@);
                    provisional.push(cand);
                    proof {
                        assert(provisional@.map_values(|c: ConversionCandidate| c@) =~= prev.push(
                            cand@,
                        ));
                    }
                }
            },
        }
        i += 1;
        proof {
            assert(vm.take(i as int) == vm.take((i - 1) as int + 1));
        }
    }
    proof {
        assert(vm.take(n as int) =~= vm);
    }
    Ok(provisional)
}

/// Once classification of a prefix has failed, classifying any extension of
/// that prefix fails with the same diagnostic: the first fatal condition
/// wins.
proof fn lemma_classify_sum_error_persists(variants: Seq<VariantModel>, k: int)
    requires
        0 <= k <= variants.len(),
        spec_classify_sum(variants.take(k)) is Err,
    ensures
        spec_classify_sum(variants) == spec_classify_sum(variants.take(k)),
    decreases variants.len() - k,
{
    if k < variants.len() {
        assert(variants.take(k + 1).drop_last() =~= variants.take(k));
        lemma_classify_sum_error_persists(variants, k + 1);
    } else {
        assert(variants.take(k) =~= variants);
    }
}

} // verus!
