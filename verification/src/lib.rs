//! Compile-time generation of conversion constructors.
//!
//! Given the declaration of a data type — a sum type with any number of
//! variants, or a product type with a single field — the library decides
//! which variants or fields qualify for an auto-generated conversion
//! constructor (a `From`-style impl taking a value of the field's type),
//! resolves ambiguity when several variants share a field type, honors an
//! explicit per-variant opt-out annotation, and reports a structured
//! diagnostic when the declaration shape is unsupported.
//!
//! Parsing source text into the [`model::TypeDeclaration`] tree and emitting
//! the resulting [`model::ConstructorDef`]s as compilable code are left to
//! the surrounding toolchain; the decision logic itself is verified.

pub mod annotation;
pub mod classifier;
pub mod diagnostics;
pub mod generate;
pub mod laws;
pub mod model;
pub mod resolver;
pub mod synthesizer;

pub use annotation::get_skip_attribute;
pub use diagnostics::invalid_number_of_fields_in_struct_error;
pub use generate::derive_from_one;
pub use generate::from_enum;
pub use generate::from_struct;
pub use model::ConstructorDef;
pub use model::ConversionCandidate;
pub use model::Diagnostic;
pub use model::DiagnosticKind;
pub use model::EmissionTarget;
pub use model::FieldShape;
pub use model::FieldWiring;
pub use model::DeclKind;
pub use model::TypeDeclaration;
pub use model::Variant;
