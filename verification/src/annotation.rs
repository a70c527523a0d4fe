//! The per-variant opt-out annotation: a small closed vocabulary with a
//! single recognized token, `skip`. A variant without an annotation is not
//! skipped; a variant whose annotation holds only recognized tokens is
//! skipped; any unrecognized token is a malformed-annotation error for the
//! whole declaration.

use vstd::prelude::*;

use crate::diagnostics::malformed_annotation_diag;
use crate::diagnostics::malformed_annotation_error;
use crate::model::DiagModel;
use crate::model::Diagnostic;
use crate::model::Variant;
use crate::model::VariantModel;

verus! {

/// The single recognized annotation token.
pub open spec fn skip_token() -> Seq<char> {
    "skip"@
}

/// Every token under the annotation namespace is the recognized one.
pub open spec fn tokens_recognized(tokens: Seq<Seq<char>>) -> bool {
    forall|i: int| 0 <= i < tokens.len() ==> tokens[i] == skip_token()
}

/// What reading a variant's annotation yields: whether the variant opted
/// out, or the malformed-annotation diagnostic.
pub open spec fn spec_skip_attribute(v: VariantModel) -> Result<bool, DiagModel> {
    if tokens_recognized(v.annotation_tokens) {
        Ok(v.annotation_tokens.len() > 0)
    } else {
        Err(malformed_annotation_diag(v.name))
    }
}

/// Whether one token is the recognized `skip` token.
fn is_skip_token(token: &String) -> (b: bool)
    ensures
        b == (token@ == skip_token()),
{
    let skip: String = String::from_str("skip");
    *token == skip
}

/// Reads a variant's annotation: `Ok(true)` when the variant is annotated
/// with the skip marker, `Ok(false)` when it carries no annotation, and the
/// malformed-annotation diagnostic as soon as any token other than the
/// recognized one appears.
pub fn get_skip_attribute(variant: &Variant) -> (r: Result<bool, Diagnostic>)
    ensures
        match spec_skip_attribute(variant@) {
            Ok(skipped) => r matches Ok(b) && b == skipped,
            Err(diag) => r matches Err(d) && d@ == diag,
        },
{
    let n = variant.annotation_tokens.len();
    let mut i: usize = 0;
    while i < n
        invariant
            i <= n,
            n == variant.annotation_tokens.len(),
            forall|j: int| 0 <= j < i ==> variant@.annotation_tokens[j] == skip_token(),
        decreases n - i,
    {
        if !is_skip_token(&variant.annotation_tokens[i]) {
            assert(variant@.annotation_tokens[i as int] != skip_token());
            assert(!tokens_recognized(variant@.annotation_tokens));
            return Err(malformed_annotation_error(&variant.name));
        }
        i += 1;
    }
    Ok(n > 0)
}

} // verus!
