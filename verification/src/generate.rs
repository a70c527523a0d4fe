//! The generation pipeline: classify the declaration, resolve ambiguity
//! for sum types, and synthesize the surviving constructors — or surface a
//! single diagnostic. Each invocation is an independent, total pass: the
//! result is a function of the declaration alone.

use vstd::prelude::*;

use crate::classifier::classify_product;
use crate::classifier::classify_sum;
use crate::classifier::spec_classify_product;
use crate::classifier::spec_classify_sum;
use crate::diagnostics::unsupported_declaration_diag;
use crate::diagnostics::unsupported_declaration_error;
use crate::model::ConstructorDef;
use crate::model::ConversionCandidate;
use crate::model::CtorModel;
use crate::model::DeclKind;
use crate::model::DeclKindModel;
use crate::model::DeclModel;
use crate::model::DiagModel;
use crate::model::Diagnostic;
use crate::model::FieldShape;
use crate::model::ShapeModel;
use crate::model::TypeDeclaration;
use crate::model::Variant;
use crate::model::VariantModel;
use crate::resolver::resolve_ambiguity;
use crate::resolver::spec_resolve;
use crate::synthesizer::spec_synthesize;
use crate::synthesizer::synthesize;

verus! {

/// What generating from a product declaration yields: exactly one
/// constructor wrapping the sole field when the declaration has exactly one
/// field, and the unsupported-shape diagnostic otherwise.
pub open spec fn spec_from_struct(ident: Seq<char>, shape: ShapeModel) -> Result<
    Seq<CtorModel>,
    DiagModel,
> {
    match spec_classify_product(ident, shape) {
        Ok(cand) => Ok(spec_synthesize(ident, seq![cand])),
        Err(diag) => Err(diag),
    }
}

/// What generating from a sum declaration yields: one constructor per
/// single-field, unannotated variant whose field type no other such variant
/// shares, in declaration order — or the malformed-annotation diagnostic of
/// the first offending variant.
pub open spec fn spec_from_enum(ident: Seq<char>, variants: Seq<VariantModel>) -> Result<
    Seq<CtorModel>,
    DiagModel,
> {
    match spec_classify_sum(variants) {
        Ok(cands) => Ok(spec_synthesize(ident, spec_resolve(cands))),
        Err(diag) => Err(diag),
    }
}

/// What generating from an arbitrary declaration yields. This pins the
/// whole pass: the output is a function of the declaration alone, so
/// running generation twice on the same declaration yields identical
/// output.
pub open spec fn spec_derive_from_one(decl: DeclModel) -> Result<Seq<CtorModel>, DiagModel> {
    match decl.kind {
        DeclKindModel::Sum { variants } => spec_from_enum(decl.ident, variants),
        DeclKindModel::Product { shape } => spec_from_struct(decl.ident, shape),
        DeclKindModel::Other => Err(unsupported_declaration_diag(decl.ident)),
    }
}

/// Generates the conversion constructors for a product declaration:
/// classification and synthesis, with no ambiguity to resolve.
pub fn from_struct(target_type: &String, shape: &FieldShape) -> (r: Result<
    Vec<ConstructorDef>,
    Diagnostic,
>)
    ensures
        match spec_from_struct(target_type@, shape@) {
            Ok(ctors) => r matches Ok(ds) && ds@.map_values(|d: ConstructorDef| d@) == ctors,
            Err(diag) => r matches Err(d) && d@ == diag,
        },
{
    match classify_product(target_type, shape) {
        Ok(cand) => {
            let mut candidates: Vec<ConversionCandidate> = Vec::new();
            let ghost cand_model = cand@;
            candidates.push(cand);
            proof {
                assert(candidates@.map_values(|c: ConversionCandidate| c@) =~= seq![cand_model]);
            }
            Ok(synthesize(target_type, &candidates))
        },
        Err(diag) => Err(diag),
    }
}

/// Generates the conversion constructors for a sum declaration:
/// classification, ambiguity resolution, synthesis.
pub fn from_enum(target_type: &String, variants: &Vec<Variant>) -> (r: Result<
    Vec<ConstructorDef>,
    Diagnostic,
>)
    ensures
        match spec_from_enum(target_type@, variants@.map_values(|v: Variant| v@)) {
            Ok(ctors) => r matches Ok(ds) && ds@.map_values(|d: ConstructorDef| d@) == ctors,
            Err(diag) => r matches Err(d) && d@ == diag,
        },
{
    match classify_sum(variants) {
        Ok(provisional) => {
            let resolved = resolve_ambiguity(&provisional);
            Ok(synthesize(target_type, &resolved))
        },
        Err(diag) => Err(diag),
    }
}

/// Runs one full generation pass over a declaration: either the ordered
/// constructor definitions for the emission collaborator, or a single
/// diagnostic. The contract pins the result exactly, for every input.
pub fn derive_from_one(decl: &TypeDeclaration) -> (r: Result<Vec<ConstructorDef>, Diagnostic>)
    ensures
        match spec_derive_from_one(decl@) {
            Ok(ctors) => r matches Ok(ds) && ds@.map_values(|d: ConstructorDef| d@) == ctors,
            Err(diag) => r matches Err(d) && d@ == diag,
        },
{
    match &decl.kind {
        DeclKind::Sum { variants } => from_enum(&decl.ident, variants),
        DeclKind::Product { shape } => from_struct(&decl.ident, shape),
        DeclKind::Other => Err(unsupported_declaration_error(&decl.ident)),
    }
}

} // verus!
