use glrs::error::ConversionError;
use glrs::host::{map_glsl_type, HostType, HostTypeId};
use glrs::syntax::TypeTag;

#[test]
fn scalar_tags_have_native_width() {
    assert_eq!(map_glsl_type(&TypeTag::Int), Ok((HostTypeId::I32, 4)));
    assert_eq!(map_glsl_type(&TypeTag::UInt), Ok((HostTypeId::U32, 4)));
    assert_eq!(map_glsl_type(&TypeTag::Float), Ok((HostTypeId::F32, 4)));
    assert_eq!(map_glsl_type(&TypeTag::Double), Ok((HostTypeId::F64, 8)));
    assert_eq!(HostTypeId::F32.size(), core::mem::size_of::<f32>());
    assert_eq!(HostTypeId::F64.size(), core::mem::size_of::<f64>());
}

#[test]
fn float_vectors_and_matrices_carry_library_sizes() {
    assert_eq!(map_glsl_type(&TypeTag::Vec2), Ok((HostTypeId::Vec2, 8)));
    assert_eq!(map_glsl_type(&TypeTag::Vec3), Ok((HostTypeId::Vec3, 12)));
    assert_eq!(map_glsl_type(&TypeTag::Vec4), Ok((HostTypeId::Vec4, 16)));
    assert_eq!(map_glsl_type(&TypeTag::Mat2), Ok((HostTypeId::Mat2, 16)));
    assert_eq!(map_glsl_type(&TypeTag::Mat3), Ok((HostTypeId::Mat3, 36)));
    assert_eq!(map_glsl_type(&TypeTag::Mat4), Ok((HostTypeId::Mat4, 64)));
    assert_eq!(HostTypeId::Vec2.size(), core::mem::size_of::<glam::Vec2>());
    assert_eq!(HostTypeId::Vec3.size(), core::mem::size_of::<glam::Vec3>());
    assert_eq!(HostTypeId::Vec4.size(), core::mem::size_of::<glam::Vec4>());
    assert_eq!(HostTypeId::Mat2.size(), core::mem::size_of::<glam::Mat2>());
    assert_eq!(HostTypeId::Mat3.size(), core::mem::size_of::<glam::Mat3>());
    assert_eq!(HostTypeId::Mat4.size(), core::mem::size_of::<glam::Mat4>());
}

#[test]
fn double_vectors_and_matrices_carry_library_sizes() {
    assert_eq!(map_glsl_type(&TypeTag::DVec2), Ok((HostTypeId::DVec2, 16)));
    assert_eq!(map_glsl_type(&TypeTag::DVec3), Ok((HostTypeId::DVec3, 24)));
    assert_eq!(map_glsl_type(&TypeTag::DVec4), Ok((HostTypeId::DVec4, 32)));
    assert_eq!(map_glsl_type(&TypeTag::DMat2), Ok((HostTypeId::DMat2, 32)));
    assert_eq!(map_glsl_type(&TypeTag::DMat3), Ok((HostTypeId::DMat3, 72)));
    assert_eq!(map_glsl_type(&TypeTag::DMat4), Ok((HostTypeId::DMat4, 128)));
    assert_eq!(HostTypeId::DVec2.size(), core::mem::size_of::<glam::DVec2>());
    assert_eq!(HostTypeId::DVec3.size(), core::mem::size_of::<glam::DVec3>());
    assert_eq!(HostTypeId::DVec4.size(), core::mem::size_of::<glam::DVec4>());
    assert_eq!(HostTypeId::DMat2.size(), core::mem::size_of::<glam::DMat2>());
    assert_eq!(HostTypeId::DMat3.size(), core::mem::size_of::<glam::DMat3>());
    assert_eq!(HostTypeId::DMat4.size(), core::mem::size_of::<glam::DMat4>());
}

#[test]
fn boolean_and_integer_vectors_carry_library_sizes() {
    assert_eq!(map_glsl_type(&TypeTag::BVec2), Ok((HostTypeId::BVec2, 2)));
    assert_eq!(map_glsl_type(&TypeTag::BVec3), Ok((HostTypeId::BVec3, 3)));
    assert_eq!(map_glsl_type(&TypeTag::BVec4), Ok((HostTypeId::BVec4, 4)));
    assert_eq!(map_glsl_type(&TypeTag::IVec2), Ok((HostTypeId::IVec2, 8)));
    assert_eq!(map_glsl_type(&TypeTag::IVec3), Ok((HostTypeId::IVec3, 12)));
    assert_eq!(map_glsl_type(&TypeTag::IVec4), Ok((HostTypeId::IVec4, 16)));
    assert_eq!(map_glsl_type(&TypeTag::UVec2), Ok((HostTypeId::UVec2, 8)));
    assert_eq!(map_glsl_type(&TypeTag::UVec3), Ok((HostTypeId::UVec3, 12)));
    assert_eq!(map_glsl_type(&TypeTag::UVec4), Ok((HostTypeId::UVec4, 16)));
    assert_eq!(HostTypeId::BVec2.size(), core::mem::size_of::<glam::BVec2>());
    assert_eq!(HostTypeId::BVec3.size(), core::mem::size_of::<glam::BVec3>());
    assert_eq!(HostTypeId::BVec4.size(), core::mem::size_of::<glam::BVec4>());
    assert_eq!(HostTypeId::IVec2.size(), core::mem::size_of::<glam::IVec2>());
    assert_eq!(HostTypeId::IVec3.size(), core::mem::size_of::<glam::IVec3>());
    assert_eq!(HostTypeId::IVec4.size(), core::mem::size_of::<glam::IVec4>());
    assert_eq!(HostTypeId::UVec2.size(), core::mem::size_of::<glam::UVec2>());
    assert_eq!(HostTypeId::UVec3.size(), core::mem::size_of::<glam::UVec3>());
    assert_eq!(HostTypeId::UVec4.size(), core::mem::size_of::<glam::UVec4>());
}

#[test]
fn unsupported_tag_is_rejected_with_its_description() {
    let sampler = TypeTag::Unsupported(String::from("Sampler2D"));
    assert_eq!(
        map_glsl_type(&sampler),
        Err(ConversionError::UnsupportedType { description: String::from("Sampler2D") })
    );
    let non_square = TypeTag::Unsupported(String::from("Mat23"));
    assert_eq!(
        map_glsl_type(&non_square),
        Err(ConversionError::UnsupportedType { description: String::from("Mat23") })
    );
}

#[test]
fn host_types_are_named_by_their_paths() {
    assert_eq!(HostTypeId::I32.path(), "i32");
    assert_eq!(HostTypeId::U32.path(), "u32");
    assert_eq!(HostTypeId::F32.path(), "f32");
    assert_eq!(HostTypeId::F64.path(), "f64");
    assert_eq!(HostTypeId::Vec3.path(), "::glam::Vec3");
    assert_eq!(HostTypeId::DMat4.path(), "::glam::DMat4");
    assert_eq!(HostTypeId::BVec2.path(), "::glam::BVec2");
    assert_eq!(HostTypeId::UVec4.path(), "::glam::UVec4");
}

#[test]
fn a_host_type_is_copied_whole() {
    let nested = HostType::Array(
        Box::new(HostType::Array(Box::new(HostType::Plain(HostTypeId::Mat3)), 4)),
        7,
    );
    assert_eq!(nested.duplicate(), nested);
    assert_eq!(nested.clone(), nested);
    assert_eq!(HostType::Plain(HostTypeId::I32).duplicate(), HostType::Plain(HostTypeId::I32));
}
