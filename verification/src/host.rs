//! The host types that shader types are mapped to, and the mapping itself.

use crate::error::ConversionError;
use crate::syntax::TypeTag;
use vstd::prelude::*;

verus! {

/// `glam::Vec2`: two `f32` lanes. Opaque here: it only stands as the type argument of
/// `core::mem::size_of`, and nothing is claimed of it.
#[verifier::external_type_specification]
#[verifier::external_body]
pub struct ExVec2(glam::Vec2);

/// `glam::Vec3`: three `f32` lanes. Opaque here: it only stands as the type argument of
/// `core::mem::size_of`, and nothing is claimed of it.
#[verifier::external_type_specification]
#[verifier::external_body]
pub struct ExVec3(glam::Vec3);

/// `glam::Vec4`: four `f32` lanes. Opaque here: it only stands as the type argument of
/// `core::mem::size_of`, and nothing is claimed of it.
#[verifier::external_type_specification]
#[verifier::external_body]
pub struct ExVec4(glam::Vec4);

/// `glam::Mat2`: a 2x2 matrix of `f32`. Opaque here: it only stands as the type argument of
/// `core::mem::size_of`, and nothing is claimed of it.
#[verifier::external_type_specification]
#[verifier::external_body]
pub struct ExMat2(glam::Mat2);

/// `glam::Mat3`: a 3x3 matrix of `f32`. Opaque here: it only stands as the type argument of
/// `core::mem::size_of`, and nothing is claimed of it.
#[verifier::external_type_specification]
#[verifier::external_body]
pub struct ExMat3(glam::Mat3);

/// `glam::Mat4`: a 4x4 matrix of `f32`. Opaque here: it only stands as the type argument of
/// `core::mem::size_of`, and nothing is claimed of it.
#[verifier::external_type_specification]
#[verifier::external_body]
pub struct ExMat4(glam::Mat4);

/// `glam::DVec2`: two `f64` lanes. Opaque here: it only stands as the type argument of
/// `core::mem::size_of`, and nothing is claimed of it.
#[verifier::external_type_specification]
#[verifier::external_body]
pub struct ExDVec2(glam::DVec2);

/// `glam::DVec3`: three `f64` lanes. Opaque here: it only stands as the type argument of
/// `core::mem::size_of`, and nothing is claimed of it.
#[verifier::external_type_specification]
#[verifier::external_body]
pub struct ExDVec3(glam::DVec3);

/// `glam::DVec4`: four `f64` lanes. Opaque here: it only stands as the type argument of
/// `core::mem::size_of`, and nothing is claimed of it.
#[verifier::external_type_specification]
#[verifier::external_body]
pub struct ExDVec4(glam::DVec4);

/// `glam::DMat2`: a 2x2 matrix of `f64`. Opaque here: it only stands as the type argument of
/// `core::mem::size_of`, and nothing is claimed of it.
#[verifier::external_type_specification]
#[verifier::external_body]
pub struct ExDMat2(glam::DMat2);

/// `glam::DMat3`: a 3x3 matrix of `f64`. Opaque here: it only stands as the type argument of
/// `core::mem::size_of`, and nothing is claimed of it.
#[verifier::external_type_specification]
#[verifier::external_body]
pub struct ExDMat3(glam::DMat3);

/// `glam::DMat4`: a 4x4 matrix of `f64`. Opaque here: it only stands as the type argument of
/// `core::mem::size_of`, and nothing is claimed of it.
#[verifier::external_type_specification]
#[verifier::external_body]
pub struct ExDMat4(glam::DMat4);

/// `glam::BVec2`: two `bool` lanes. Opaque here: it only stands as the type argument of
/// `core::mem::size_of`, and nothing is claimed of it.
#[verifier::external_type_specification]
#[verifier::external_body]
pub struct ExBVec2(glam::BVec2);

/// `glam::BVec3`: three `bool` lanes. Opaque here: it only stands as the type argument of
/// `core::mem::size_of`, and nothing is claimed of it.
#[verifier::external_type_specification]
#[verifier::external_body]
pub struct ExBVec3(glam::BVec3);

/// `glam::BVec4`: four `bool` lanes. Opaque here: it only stands as the type argument of
/// `core::mem::size_of`, and nothing is claimed of it.
#[verifier::external_type_specification]
#[verifier::external_body]
pub struct ExBVec4(glam::BVec4);

/// `glam::IVec2`: two `i32` lanes. Opaque here: it only stands as the type argument of
/// `core::mem::size_of`, and nothing is claimed of it.
#[verifier::external_type_specification]
#[verifier::external_body]
pub struct ExIVec2(glam::IVec2);

/// `glam::IVec3`: three `i32` lanes. Opaque here: it only stands as the type argument of
/// `core::mem::size_of`, and nothing is claimed of it.
#[verifier::external_type_specification]
#[verifier::external_body]
pub struct ExIVec3(glam::IVec3);

/// `glam::IVec4`: four `i32` lanes. Opaque here: it only stands as the type argument of
/// `core::mem::size_of`, and nothing is claimed of it.
#[verifier::external_type_specification]
#[verifier::external_body]
pub struct ExIVec4(glam::IVec4);

/// `glam::UVec2`: two `u32` lanes. Opaque here: it only stands as the type argument of
/// `core::mem::size_of`, and nothing is claimed of it.
#[verifier::external_type_specification]
#[verifier::external_body]
pub struct ExUVec2(glam::UVec2);

/// `glam::UVec3`: three `u32` lanes. Opaque here: it only stands as the type argument of
/// `core::mem::size_of`, and nothing is claimed of it.
#[verifier::external_type_specification]
#[verifier::external_body]
pub struct ExUVec3(glam::UVec3);

/// `glam::UVec4`: four `u32` lanes. Opaque here: it only stands as the type argument of
/// `core::mem::size_of`, and nothing is claimed of it.
#[verifier::external_type_specification]
#[verifier::external_body]
pub struct ExUVec4(glam::UVec4);

/// The host type that takes the place of a non-array shader type: a native
/// number, or a vector or matrix of the linear algebra library.
#[derive(Clone, Copy, Debug, PartialEq, Eq)]
pub enum HostTypeId {
    I32,
    U32,
    F32,
    F64,
    Vec2,
    Vec3,
    Vec4,
    Mat2,
    Mat3,
    Mat4,
    DVec2,
    DVec3,
    DVec4,
    DMat2,
    DMat3,
    DMat4,
    BVec2,
    BVec3,
    BVec4,
    IVec2,
    IVec3,
    IVec4,
    UVec2,
    UVec3,
    UVec4,
}

/// The type of a converted field: a host type, or a fixed-size array of such
/// a type, nested to any depth.
#[derive(Debug, PartialEq, Eq)]
pub enum HostType {
    Plain(HostTypeId),
    /// An array of `.1` elements of the type `.0`.
    Array(Box<HostType>, usize),
}

/// The host type of a shader type, where it has one.
pub open spec fn host_type_of(ty: TypeTag) -> Option<HostTypeId> {
    match ty {
        TypeTag::Int => Some(HostTypeId::I32),
        TypeTag::UInt => Some(HostTypeId::U32),
        TypeTag::Float => Some(HostTypeId::F32),
        TypeTag::Double => Some(HostTypeId::F64),
        TypeTag::Vec2 => Some(HostTypeId::Vec2),
        TypeTag::Vec3 => Some(HostTypeId::Vec3),
        TypeTag::Vec4 => Some(HostTypeId::Vec4),
        TypeTag::Mat2 => Some(HostTypeId::Mat2),
        TypeTag::Mat3 => Some(HostTypeId::Mat3),
        TypeTag::Mat4 => Some(HostTypeId::Mat4),
        TypeTag::DVec2 => Some(HostTypeId::DVec2),
        TypeTag::DVec3 => Some(HostTypeId::DVec3),
        TypeTag::DVec4 => Some(HostTypeId::DVec4),
        TypeTag::DMat2 => Some(HostTypeId::DMat2),
        TypeTag::DMat3 => Some(HostTypeId::DMat3),
        TypeTag::DMat4 => Some(HostTypeId::DMat4),
        TypeTag::BVec2 => Some(HostTypeId::BVec2),
        TypeTag::BVec3 => Some(HostTypeId::BVec3),
        TypeTag::BVec4 => Some(HostTypeId::BVec4),
        TypeTag::IVec2 => Some(HostTypeId::IVec2),
        TypeTag::IVec3 => Some(HostTypeId::IVec3),
        TypeTag::IVec4 => Some(HostTypeId::IVec4),
        TypeTag::UVec2 => Some(HostTypeId::UVec2),
        TypeTag::UVec3 => Some(HostTypeId::UVec3),
        TypeTag::UVec4 => Some(HostTypeId::UVec4),
        TypeTag::Unsupported(_) => None,
    }
}

/// The size in bytes of a host type: the width of a native number, and for
/// a vector or matrix the size that the compiler gives the library's type
/// (as a `usize`, which the size of every type that is compiled fits).
pub open spec fn host_size(id: HostTypeId) -> usize {
    match id {
        HostTypeId::I32 => 4,
        HostTypeId::U32 => 4,
        HostTypeId::F32 => 4,
        HostTypeId::F64 => 8,
        HostTypeId::Vec2 => vstd::layout::size_of::<glam::Vec2>() as usize,
        HostTypeId::Vec3 => vstd::layout::size_of::<glam::Vec3>() as usize,
        HostTypeId::Vec4 => vstd::layout::size_of::<glam::Vec4>() as usize,
        HostTypeId::Mat2 => vstd::layout::size_of::<glam::Mat2>() as usize,
        HostTypeId::Mat3 => vstd::layout::size_of::<glam::Mat3>() as usize,
        HostTypeId::Mat4 => vstd::layout::size_of::<glam::Mat4>() as usize,
        HostTypeId::DVec2 => vstd::layout::size_of::<glam::DVec2>() as usize,
        HostTypeId::DVec3 => vstd::layout::size_of::<glam::DVec3>() as usize,
        HostTypeId::DVec4 => vstd::layout::size_of::<glam::DVec4>() as usize,
        HostTypeId::DMat2 => vstd::layout::size_of::<glam::DMat2>() as usize,
        HostTypeId::DMat3 => vstd::layout::size_of::<glam::DMat3>() as usize,
        HostTypeId::DMat4 => vstd::layout::size_of::<glam::DMat4>() as usize,
        HostTypeId::BVec2 => vstd::layout::size_of::<glam::BVec2>() as usize,
        HostTypeId::BVec3 => vstd::layout::size_of::<glam::BVec3>() as usize,
        HostTypeId::BVec4 => vstd::layout::size_of::<glam::BVec4>() as usize,
        HostTypeId::IVec2 => vstd::layout::size_of::<glam::IVec2>() as usize,
        HostTypeId::IVec3 => vstd::layout::size_of::<glam::IVec3>() as usize,
        HostTypeId::IVec4 => vstd::layout::size_of::<glam::IVec4>() as usize,
        HostTypeId::UVec2 => vstd::layout::size_of::<glam::UVec2>() as usize,
        HostTypeId::UVec3 => vstd::layout::size_of::<glam::UVec3>() as usize,
        HostTypeId::UVec4 => vstd::layout::size_of::<glam::UVec4>() as usize,
    }
}

/// The path under which generated code names a host type.
pub open spec fn host_path(id: HostTypeId) -> Seq<char> {
    match id {
        HostTypeId::I32 => "i32"@,
        HostTypeId::U32 => "u32"@,
        HostTypeId::F32 => "f32"@,
        HostTypeId::F64 => "f64"@,
        HostTypeId::Vec2 => "::glam::Vec2"@,
        HostTypeId::Vec3 => "::glam::Vec3"@,
        HostTypeId::Vec4 => "::glam::Vec4"@,
        HostTypeId::Mat2 => "::glam::Mat2"@,
        HostTypeId::Mat3 => "::glam::Mat3"@,
        HostTypeId::Mat4 => "::glam::Mat4"@,
        HostTypeId::DVec2 => "::glam::DVec2"@,
        HostTypeId::DVec3 => "::glam::DVec3"@,
        HostTypeId::DVec4 => "::glam::DVec4"@,
        HostTypeId::DMat2 => "::glam::DMat2"@,
        HostTypeId::DMat3 => "::glam::DMat3"@,
        HostTypeId::DMat4 => "::glam::DMat4"@,
        HostTypeId::BVec2 => "::glam::BVec2"@,
        HostTypeId::BVec3 => "::glam::BVec3"@,
        HostTypeId::BVec4 => "::glam::BVec4"@,
        HostTypeId::IVec2 => "::glam::IVec2"@,
        HostTypeId::IVec3 => "::glam::IVec3"@,
        HostTypeId::IVec4 => "::glam::IVec4"@,
        HostTypeId::UVec2 => "::glam::UVec2"@,
        HostTypeId::UVec3 => "::glam::UVec3"@,
        HostTypeId::UVec4 => "::glam::UVec4"@,
    }
}

impl HostTypeId {
    /// The size of the host type in bytes.
    pub fn size(self) -> (bytes: usize)
        ensures
            bytes == host_size(self),
    {
        broadcast use vstd::layout::layout_of_primitives;

        match self {
            HostTypeId::I32 => core::mem::size_of::<i32>(),
            HostTypeId::U32 => core::mem::size_of::<u32>(),
            HostTypeId::F32 => 4,
            HostTypeId::F64 => 8,
            HostTypeId::Vec2 => core::mem::size_of::<glam::Vec2>(),
            HostTypeId::Vec3 => core::mem::size_of::<glam::Vec3>(),
            HostTypeId::Vec4 => core::mem::size_of::<glam::Vec4>(),
            HostTypeId::Mat2 => core::mem::size_of::<glam::Mat2>(),
            HostTypeId::Mat3 => core::mem::size_of::<glam::Mat3>(),
            HostTypeId::Mat4 => core::mem::size_of::<glam::Mat4>(),
            HostTypeId::DVec2 => core::mem::size_of::<glam::DVec2>(),
            HostTypeId::DVec3 => core::mem::size_of::<glam::DVec3>(),
            HostTypeId::DVec4 => core::mem::size_of::<glam::DVec4>(),
            HostTypeId::DMat2 => core::mem::size_of::<glam::DMat2>(),
            HostTypeId::DMat3 => core::mem::size_of::<glam::DMat3>(),
            HostTypeId::DMat4 => core::mem::size_of::<glam::DMat4>(),
            HostTypeId::BVec2 => core::mem::size_of::<glam::BVec2>(),
            HostTypeId::BVec3 => core::mem::size_of::<glam::BVec3>(),
            HostTypeId::BVec4 => core::mem::size_of::<glam::BVec4>(),
            HostTypeId::IVec2 => core::mem::size_of::<glam::IVec2>(),
            HostTypeId::IVec3 => core::mem::size_of::<glam::IVec3>(),
            HostTypeId::IVec4 => core::mem::size_of::<glam::IVec4>(),
            HostTypeId::UVec2 => core::mem::size_of::<glam::UVec2>(),
            HostTypeId::UVec3 => core::mem::size_of::<glam::UVec3>(),
            HostTypeId::UVec4 => core::mem::size_of::<glam::UVec4>(),
        }
    }

    /// The path under which generated code names the host type.
    pub fn path(self) -> (path: &'static str)
        ensures
            path@ == host_path(self),
    {
        match self {
            HostTypeId::I32 => "i32",
            HostTypeId::U32 => "u32",
            HostTypeId::F32 => "f32",
            HostTypeId::F64 => "f64",
            HostTypeId::Vec2 => "::glam::Vec2",
            HostTypeId::Vec3 => "::glam::Vec3",
            HostTypeId::Vec4 => "::glam::Vec4",
            HostTypeId::Mat2 => "::glam::Mat2",
            HostTypeId::Mat3 => "::glam::Mat3",
            HostTypeId::Mat4 => "::glam::Mat4",
            HostTypeId::DVec2 => "::glam::DVec2",
            HostTypeId::DVec3 => "::glam::DVec3",
            HostTypeId::DVec4 => "::glam::DVec4",
            HostTypeId::DMat2 => "::glam::DMat2",
            HostTypeId::DMat3 => "::glam::DMat3",
            HostTypeId::DMat4 => "::glam::DMat4",
            HostTypeId::BVec2 => "::glam::BVec2",
            HostTypeId::BVec3 => "::glam::BVec3",
            HostTypeId::BVec4 => "::glam::BVec4",
            HostTypeId::IVec2 => "::glam::IVec2",
            HostTypeId::IVec3 => "::glam::IVec3",
            HostTypeId::IVec4 => "::glam::IVec4",
            HostTypeId::UVec2 => "::glam::UVec2",
            HostTypeId::UVec3 => "::glam::UVec3",
            HostTypeId::UVec4 => "::glam::UVec4",
        }
    }
}

impl HostType {
    /// A copy of the type.
    pub fn duplicate(&self) -> (copy: HostType)
        ensures
            copy == *self,
        decreases *self,
    {
        match self {
            HostType::Plain(id) => HostType::Plain(*id),
            HostType::Array(element, len) => HostType::Array(Box::new(element.duplicate()), *len),
        }
    }
}

impl Clone for HostType {
    fn clone(&self) -> (copy: HostType)
        ensures
            copy == *self,
    {
        self.duplicate()
    }
}

/// Maps a shader type to its host type and that type's size in bytes.
///
/// Every tag but `Unsupported` has a host type; for `Unsupported` the error
/// carries the description of the shader type.
pub fn map_glsl_type(ty: &TypeTag) -> (res: Result<(HostTypeId, usize), ConversionError>)
    ensures
        match *ty {
            TypeTag::Unsupported(description) => res == Err::<(HostTypeId, usize), ConversionError>(
                ConversionError::UnsupportedType { description },
            ),
            _ => host_type_of(*ty) matches Some(id) && res == Ok::<
                (HostTypeId, usize),
                ConversionError,
            >((id, host_size(id))),
        },
{
    let id: HostTypeId = match ty {
        TypeTag::Int => HostTypeId::I32,
        TypeTag::UInt => HostTypeId::U32,
        TypeTag::Float => HostTypeId::F32,
        TypeTag::Double => HostTypeId::F64,
        TypeTag::Vec2 => HostTypeId::Vec2,
        TypeTag::Vec3 => HostTypeId::Vec3,
        TypeTag::Vec4 => HostTypeId::Vec4,
        TypeTag::Mat2 => HostTypeId::Mat2,
        TypeTag::Mat3 => HostTypeId::Mat3,
        TypeTag::Mat4 => HostTypeId::Mat4,
        TypeTag::DVec2 => HostTypeId::DVec2,
        TypeTag::DVec3 => HostTypeId::DVec3,
        TypeTag::DVec4 => HostTypeId::DVec4,
        TypeTag::DMat2 => HostTypeId::DMat2,
        TypeTag::DMat3 => HostTypeId::DMat3,
        TypeTag::DMat4 => HostTypeId::DMat4,
        TypeTag::BVec2 => HostTypeId::BVec2,
        TypeTag::BVec3 => HostTypeId::BVec3,
        TypeTag::BVec4 => HostTypeId::BVec4,
        TypeTag::IVec2 => HostTypeId::IVec2,
        TypeTag::IVec3 => HostTypeId::IVec3,
        TypeTag::IVec4 => HostTypeId::IVec4,
        TypeTag::UVec2 => HostTypeId::UVec2,
        TypeTag::UVec3 => HostTypeId::UVec3,
        TypeTag::UVec4 => HostTypeId::UVec4,
        TypeTag::Unsupported(description) => {
            return Err(ConversionError::UnsupportedType { description: description.clone() });
        },
    };
    Ok((id, id.size()))
}

} // verus!
