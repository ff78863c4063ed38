use vstd::prelude::*;

verus! {

/// Why an array dimension cannot become the length of a host array.
#[derive(Clone, Copy, Debug, PartialEq, Eq)]
pub enum DimensionFault {
    /// The dimension carries no size.
    Unsized,
    /// The size is a literal that is zero or negative.
    NonPositive,
    /// The size is an expression other than a literal under unary `+`.
    Unsupported,
}

/// Why a conversion stopped. Every kind is final: no partial field list is
/// ever handed out next to one.
#[derive(Clone, Debug, PartialEq, Eq)]
pub enum ConversionError {
    /// The shader file could not be read.
    SourceUnreadable { path: String, reason: String },
    /// The shader source was rejected by the parser.
    SourceUnparsable { diagnostic: String },
    /// The source declares no structure of the requested name.
    StructNotFound { path: String, name: String },
    /// A field has a shader type without a host counterpart.
    UnsupportedType { description: String },
    /// An array dimension is unsized, not positive, or not a literal.
    /// `position` counts the dimensions of its array specifier from the first
    /// one declared.
    InvalidArrayDimension { position: usize, fault: DimensionFault },
    /// The element count or the byte footprint of an array exceeds
    /// `usize::MAX`: no host array can have that type.
    ArrayTooLarge,
}

} // verus!
