use vstd::prelude::*;

verus! {

/// Why a schema did not compile.
#[derive(Debug)]
pub enum CompileError {
    /// A schema node is not a JSON object.
    StructuralError,
    /// The whole schema is a JSON array; repeated output is asked for with a repeat count.
    RootIsArray,
    /// `fake_type` is absent or not a string.
    MissingOrInvalidTag,
    /// `fake_type` names no generator.
    UnknownTag(String),
    /// A required field (tag, field) is absent.
    MissingField(String, String),
    /// A field (tag, field) has the wrong JSON type.
    TypeMismatch(String, String),
    /// A ranged generator with `min >= max`.
    InvalidRange(usize, usize),
    /// An array or map node (tag) with no nested generator.
    EmptyComposite(String),
    /// An array node (tag) with more than one nested generator.
    AmbiguousTemplate(String),
}

/// The mathematical value of a `CompileError`.
pub ghost enum CompileErrorV {
    StructuralError,
    RootIsArray,
    MissingOrInvalidTag,
    UnknownTag(Seq<char>),
    MissingField(Seq<char>, Seq<char>),
    TypeMismatch(Seq<char>, Seq<char>),
    InvalidRange(usize, usize),
    EmptyComposite(Seq<char>),
    AmbiguousTemplate(Seq<char>),
}

impl View for CompileError {
    type V = CompileErrorV;

    open spec fn view(&self) -> CompileErrorV {
        match self {
            CompileError::StructuralError => CompileErrorV::StructuralError,
            CompileError::RootIsArray => CompileErrorV::RootIsArray,
            CompileError::MissingOrInvalidTag => CompileErrorV::MissingOrInvalidTag,
            CompileError::UnknownTag(t) => CompileErrorV::UnknownTag(t@),
            CompileError::MissingField(t, f) => CompileErrorV::MissingField(t@, f@),
            CompileError::TypeMismatch(t, f) => CompileErrorV::TypeMismatch(t@, f@),
            CompileError::InvalidRange(a, b) => CompileErrorV::InvalidRange(*a, *b),
            CompileError::EmptyComposite(t) => CompileErrorV::EmptyComposite(t@),
            CompileError::AmbiguousTemplate(t) => CompileErrorV::AmbiguousTemplate(t@),
        }
    }
}

impl CompileError {
    /// Whether the error is about the shape of the document rather than a field.
    pub fn is_structural(&self) -> (r: bool)
        ensures
            r == (self@ is StructuralError || self@ is RootIsArray),
    {
        match self {
            CompileError::StructuralError => true,
            CompileError::RootIsArray => true,
            _ => false,
        }
    }
}

/// A generator name that the name table does not hold.
#[derive(Debug, PartialEq, Eq, Structural)]
pub enum FakerTypeError {
    InvalidType,
}

} // verus!
