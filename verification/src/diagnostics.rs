//! Construction of the three diagnostics, with the exact message each one
//! carries. A failed declaration yields exactly one diagnostic and no
//! generated code.

use vstd::prelude::*;

use crate::model::DiagModel;
use crate::model::Diagnostic;
use crate::model::DiagnosticKind;

verus! {

/// Message of an [`DiagnosticKind::UnsupportedDeclaration`] diagnostic.
pub open spec fn unsupported_declaration_message() -> Seq<char> {
    "FromOne can only be used with enums or structs with a single field"@
}

/// Message of an [`DiagnosticKind::UnsupportedShape`] diagnostic.
pub open spec fn unsupported_shape_message() -> Seq<char> {
    "FromOne can only be used with structs with a single field"@
}

/// Message of a [`DiagnosticKind::MalformedAnnotation`] diagnostic.
pub open spec fn malformed_annotation_message() -> Seq<char> {
    "Expected `#[from(skip)]`"@
}

/// The diagnostic for a declaration that is neither a sum nor a product
/// shape, located at the declared type's identifier.
pub open spec fn unsupported_declaration_diag(ident: Seq<char>) -> DiagModel {
    DiagModel {
        kind: DiagnosticKind::UnsupportedDeclaration,
        site: ident,
        message: unsupported_declaration_message(),
    }
}

/// The diagnostic for a product declaration without exactly one field,
/// located at the declared type's identifier.
pub open spec fn unsupported_shape_diag(ident: Seq<char>) -> DiagModel {
    DiagModel {
        kind: DiagnosticKind::UnsupportedShape,
        site: ident,
        message: unsupported_shape_message(),
    }
}

/// The diagnostic for an annotation with an unrecognized token, located at
/// the annotated variant.
pub open spec fn malformed_annotation_diag(variant_name: Seq<char>) -> DiagModel {
    DiagModel {
        kind: DiagnosticKind::MalformedAnnotation,
        site: variant_name,
        message: malformed_annotation_message(),
    }
}

/// Builds the diagnostic for a declaration that is neither a sum nor a
/// product shape.
pub fn unsupported_declaration_error(ident: &String) -> (d: Diagnostic)
    ensures
        d@ == unsupported_declaration_diag(ident@),
{
    Diagnostic {
        kind: DiagnosticKind::UnsupportedDeclaration,
        site: ident.clone(),
        message: String::from_str(
            "FromOne can only be used with enums or structs with a single field",
        ),
    }
}

/// Builds the diagnostic for a product declaration that does not declare
/// exactly one field.
pub fn invalid_number_of_fields_in_struct_error(target_type: &String) -> (d: Diagnostic)
    ensures
        d@ == unsupported_shape_diag(target_type@),
{
    Diagnostic {
        kind: DiagnosticKind::UnsupportedShape,
        site: target_type.clone(),
        message: String::from_str("FromOne can only be used with structs with a single field"),
    }
}

/// Builds the diagnostic for an annotation on the named variant that uses a
/// token other than the recognized one.
pub fn malformed_annotation_error(variant_name: &String) -> (d: Diagnostic)
    ensures
        d@ == malformed_annotation_diag(variant_name@),
{
    Diagnostic {
        kind: DiagnosticKind::MalformedAnnotation,
        site: variant_name.clone(),
        message: String::from_str("Expected `#[from(skip)]`"),
    }
}

} // verus!
