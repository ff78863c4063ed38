//! The part of a shader structure declaration that a conversion reads.

use vstd::prelude::*;

verus! {

/// The tag of a non-array shader type.
#[derive(Clone, Debug, PartialEq, Eq)]
pub enum TypeTag {
    Int,
    UInt,
    Float,
    Double,
    Vec2,
    Vec3,
    Vec4,
    Mat2,
    Mat3,
    Mat4,
    DVec2,
    DVec3,
    DVec4,
    DMat2,
    DMat3,
    DMat4,
    BVec2,
    BVec3,
    BVec4,
    IVec2,
    IVec3,
    IVec4,
    UVec2,
    UVec3,
    UVec4,
    /// Any other shader type (a boolean scalar, a non-square matrix, a
    /// sampler, a nested structure, ...), with the text that describes it.
    Unsupported(String),
}

/// The unary operators of the shader language.
#[derive(Clone, Copy, Debug, PartialEq, Eq)]
pub enum UnaryOp {
    Inc,
    Dec,
    Add,
    Minus,
    Not,
    Complement,
}

/// An expression in the position of an array size.
#[derive(Debug, PartialEq, Eq)]
pub enum ConstExpr {
    /// A signed integer literal.
    IntConst(i32),
    /// An unsigned integer literal.
    UIntConst(u32),
    /// A unary operator applied to an expression.
    Unary(UnaryOp, Box<ConstExpr>),
    /// Any other form of expression.
    Other,
}

/// One dimension of an array specifier.
#[derive(Clone, Debug, PartialEq, Eq)]
pub enum Dimension {
    Unsized,
    ExplicitlySized(ConstExpr),
}

/// The dimensions written after a type or after an identifier, in
/// declaration order: the first one is the outermost. A specifier that is
/// written down has at least one; one without dimensions declares no array
/// and is treated as an absent one.
#[derive(Clone, Debug, PartialEq, Eq)]
pub struct ArraySpecifier {
    pub dimensions: Vec<Dimension>,
}

/// A field name with the array specifier that follows it, if any.
#[derive(Clone, Debug, PartialEq, Eq)]
pub struct ArrayedIdentifier {
    pub ident: String,
    pub array_spec: Option<ArraySpecifier>,
}

/// One line of field declarations: a type, its array specifier if any, and
/// the identifiers that share both.
#[derive(Clone, Debug, PartialEq, Eq)]
pub struct FieldGroup {
    pub ty: TypeTag,
    pub array_specifier: Option<ArraySpecifier>,
    pub identifiers: Vec<ArrayedIdentifier>,
}

/// A structure declaration of a shader source.
#[derive(Clone, Debug, PartialEq, Eq)]
pub struct StructDeclaration {
    pub name: Option<String>,
    pub fields: Vec<FieldGroup>,
}

/// The dimensions that an optional array specifier declares: none where it
/// is absent or holds none.
pub open spec fn declared_dims(spec: Option<ArraySpecifier>) -> Seq<Dimension> {
    match spec {
        Some(s) => s.dimensions@,
        None => Seq::empty(),
    }
}

impl ConstExpr {
    /// A copy of the expression.
    pub fn duplicate(&self) -> (copy: ConstExpr)
        ensures
            copy == *self,
        decreases *self,
    {
        match self {
            ConstExpr::IntConst(v) => ConstExpr::IntConst(*v),
            ConstExpr::UIntConst(v) => ConstExpr::UIntConst(*v),
            ConstExpr::Unary(op, inner) => ConstExpr::Unary(*op, Box::new(inner.duplicate())),
            ConstExpr::Other => ConstExpr::Other,
        }
    }
}

impl Clone for ConstExpr {
    fn clone(&self) -> (copy: ConstExpr)
        ensures
            copy == *self,
    {
        self.duplicate()
    }
}

} // verus!
