//! The declaration tree handed in by the parsing collaborator, the
//! intermediate conversion candidates, the generated constructor
//! definitions handed out to the emission collaborator, and the
//! diagnostics — together with their mathematical models (views).
//!
//! Field types are carried as canonical strings (a structural key for the
//! declared type), so candidacy and ambiguity are decided by plain string
//! comparison rather than by any host compiler's notion of type identity.

use vstd::prelude::*;

verus! {

// ---------------------------------------------------------------------------
// Input side: the type declaration
// ---------------------------------------------------------------------------

/// The shape of a variant's (or of a product type's) field list.
#[derive(Debug)]
pub enum FieldShape {
    /// No field at all (a unit variant, or an empty struct).
    NoField,
    /// Exactly one named field: its name and the canonical key of its type.
    SingleNamed { name: String, ty: String },
    /// Exactly one positional field: the canonical key of its type.
    SingleUnnamed { ty: String },
    /// Two or more fields of any kind.
    Multi,
}

/// One alternative of a sum type.
#[derive(Debug)]
pub struct Variant {
    /// The variant's name.
    pub name: String,
    /// The shape of the variant's field list.
    pub shape: FieldShape,
    /// The tokens found under the recognized annotation namespace on this
    /// variant, in source order. An empty list means the variant carries no
    /// annotation; the only recognized token is `skip`.
    pub annotation_tokens: Vec<String>,
}

/// What kind of declaration the parsing collaborator handed over.
#[derive(Debug)]
pub enum DeclKind {
    /// A sum type: an ordered sequence of variants.
    Sum { variants: Vec<Variant> },
    /// A struct-like type with the given field list.
    Product { shape: FieldShape },
    /// Neither a sum nor a product shape (for example a union-like
    /// declaration): always rejected.
    Other,
}

/// The unit of input: one type declaration.
#[derive(Debug)]
pub struct TypeDeclaration {
    /// The declared type's identifier, used to qualify generated
    /// constructors.
    pub ident: String,
    /// The declaration's kind and contents.
    pub kind: DeclKind,
}

// ---------------------------------------------------------------------------
// Output side: candidates, constructor definitions, diagnostics
// ---------------------------------------------------------------------------

/// How a generated constructor stores the incoming value in its target.
#[derive(Debug)]
pub enum FieldWiring {
    /// Through a field with the given name.
    Named { field: String },
    /// Through a single positional field.
    Positional,
}

/// Where a generated constructor places the converted value.
#[derive(Debug)]
pub enum EmissionTarget {
    /// Construct the product type directly.
    Product { wiring: FieldWiring },
    /// Construct the named variant of the sum type.
    Variant { variant: String, wiring: FieldWiring },
}

/// A (origin type, emission target) pair eligible for constructor
/// generation.
#[derive(Debug)]
pub struct ConversionCandidate {
    /// Canonical key of the type the constructor converts from.
    pub origin: String,
    /// The variant or product field the constructor builds.
    pub target: EmissionTarget,
}

/// One generated conversion constructor: convert a value of `origin` into a
/// value of `target_type` by the given wiring.
#[derive(Debug)]
pub struct ConstructorDef {
    /// The declared type's identifier.
    pub target_type: String,
    /// Canonical key of the type the constructor converts from.
    pub origin: String,
    /// The variant or product field the constructor builds.
    pub target: EmissionTarget,
}

/// Why a declaration was rejected.
#[derive(Clone, Copy, Debug, PartialEq, Eq, Structural)]
pub enum DiagnosticKind {
    /// The declaration is neither a sum nor a product shape.
    UnsupportedDeclaration,
    /// A product declaration does not have exactly one field.
    UnsupportedShape,
    /// An annotation uses a token other than the recognized one.
    MalformedAnnotation,
}

/// A structured, source-located error; terminal output, mutually exclusive
/// with successful generation.
#[derive(Debug)]
pub struct Diagnostic {
    /// The failure's kind.
    pub kind: DiagnosticKind,
    /// The identifier of the offending item — the declaration for shape
    /// errors, the variant for annotation errors — so the emission
    /// collaborator can report the error at the right place.
    pub site: String,
    /// A human-readable message.
    pub message: String,
}

// ---------------------------------------------------------------------------
// Mathematical models
// ---------------------------------------------------------------------------

/// Model of [`FieldShape`].
pub enum ShapeModel {
    NoField,
    SingleNamed { name: Seq<char>, ty: Seq<char> },
    SingleUnnamed { ty: Seq<char> },
    Multi,
}

/// Model of [`Variant`].
pub struct VariantModel {
    pub name: Seq<char>,
    pub shape: ShapeModel,
    pub annotation_tokens: Seq<Seq<char>>,
}

/// Model of [`DeclKind`].
pub enum DeclKindModel {
    Sum { variants: Seq<VariantModel> },
    Product { shape: ShapeModel },
    Other,
}

/// Model of [`TypeDeclaration`].
pub struct DeclModel {
    pub ident: Seq<char>,
    pub kind: DeclKindModel,
}

/// Model of [`FieldWiring`].
pub enum WiringModel {
    Named { field: Seq<char> },
    Positional,
}

/// Model of [`EmissionTarget`].
pub enum TargetModel {
    Product { wiring: WiringModel },
    Variant { variant: Seq<char>, wiring: WiringModel },
}

/// Model of [`ConversionCandidate`].
pub struct CandidateModel {
    pub origin: Seq<char>,
    pub target: TargetModel,
}

/// Model of [`ConstructorDef`].
pub struct CtorModel {
    pub target_type: Seq<char>,
    pub origin: Seq<char>,
    pub target: TargetModel,
}

/// Model of [`Diagnostic`].
pub struct DiagModel {
    pub kind: DiagnosticKind,
    pub site: Seq<char>,
    pub message: Seq<char>,
}

// ---------------------------------------------------------------------------
// Views
// ---------------------------------------------------------------------------

impl View for FieldShape {
    type V = ShapeModel;

    open spec fn view(&self) -> ShapeModel {
        match self {
            FieldShape::NoField => ShapeModel::NoField,
            FieldShape::SingleNamed { name, ty } => ShapeModel::SingleNamed {
                name: name@,
                ty: ty@,
            },
            FieldShape::SingleUnnamed { ty } => ShapeModel::SingleUnnamed { ty: ty@ },
            FieldShape::Multi => ShapeModel::Multi,
        }
    }
}

impl View for Variant {
    type V = VariantModel;

    open spec fn view(&self) -> VariantModel {
        VariantModel {
            name: self.name@,
            shape: self.shape@,
            annotation_tokens: self.annotation_tokens@.map_values(|t: String| t@),
        }
    }
}

impl View for DeclKind {
    type V = DeclKindModel;

    open spec fn view(&self) -> DeclKindModel {
        match self {
            DeclKind::Sum { variants } => DeclKindModel::Sum {
                variants: variants@.map_values(|v: Variant| v@),
            },
            DeclKind::Product { shape } => DeclKindModel::Product { shape: shape@ },
            DeclKind::Other => DeclKindModel::Other,
        }
    }
}

impl View for TypeDeclaration {
    type V = DeclModel;

    open spec fn view(&self) -> DeclModel {
        DeclModel { ident: self.ident@, kind: self.kind@ }
    }
}

impl View for FieldWiring {
    type V = WiringModel;

    open spec fn view(&self) -> WiringModel {
        match self {
            FieldWiring::Named { field } => WiringModel::Named { field: field@ },
            FieldWiring::Positional => WiringModel::Positional,
        }
    }
}

impl View for EmissionTarget {
    type V = TargetModel;

    open spec fn view(&self) -> TargetModel {
        match self {
            EmissionTarget::Product { wiring } => TargetModel::Product { wiring: wiring@ },
            EmissionTarget::Variant { variant, wiring } => TargetModel::Variant {
                variant: variant@,
                wiring: wiring@,
            },
        }
    }
}

impl View for ConversionCandidate {
    type V = CandidateModel;

    open spec fn view(&self) -> CandidateModel {
        CandidateModel { origin: self.origin@, target: self.target@ }
    }
}

impl View for ConstructorDef {
    type V = CtorModel;

    open spec fn view(&self) -> CtorModel {
        CtorModel {
            target_type: self.target_type@,
            origin: self.origin@,
            target: self.target@,
        }
    }
}

impl View for Diagnostic {
    type V = DiagModel;

    open spec fn view(&self) -> DiagModel {
        DiagModel { kind: self.kind, site: self.site@, message: self.message@ }
    }
}

// ---------------------------------------------------------------------------
// Clone for the values the pipeline copies
// ---------------------------------------------------------------------------

impl Clone for FieldWiring {
    fn clone(&self) -> (c: Self)
        ensures
            c == *self,
    {
        match self {
            FieldWiring::Named { field } => FieldWiring::Named { field: field.clone() },
            FieldWiring::Positional => FieldWiring::Positional,
        }
    }
}

impl Clone for EmissionTarget {
    fn clone(&self) -> (c: Self)
        ensures
            c == *self,
    {
        match self {
            EmissionTarget::Product { wiring } => EmissionTarget::Product {
                wiring: wiring.clone(),
            },
            EmissionTarget::Variant { variant, wiring } => EmissionTarget::Variant {
                variant: variant.clone(),
                wiring: wiring.clone(),
            },
        }
    }
}

impl Clone for ConversionCandidate {
    fn clone(&self) -> (c: Self)
        ensures
            c == *self,
    {
        ConversionCandidate { origin: self.origin.clone(), target: self.target.clone() }
    }
}

} // verus!
