use glrs::convert::{convert_found, get_fields, ResolvedField};
use glrs::error::{ConversionError, DimensionFault};
use glrs::host::{HostType, HostTypeId};
use glrs::locate::StructFinder;
use glrs::syntax::{
    ArraySpecifier, ArrayedIdentifier, ConstExpr, Dimension, FieldGroup, StructDeclaration,
    TypeTag, UnaryOp,
};
use glsl::parser::Parse;
use glsl::syntax as ast;
use glsl::visitor::{Host, Visit, Visitor};

const SOURCE: &str = "
struct Camera {
    vec3 pos;
    vec3 speed;
};

struct FieldTypes {
    vec3 vec3_l;
    vec3 vec3_r;
    float arr[3];
    float arr_arr[2][3];
};

struct Shared {
    ivec2[3] a, b[2];
};

struct Literals {
    double plus[+2];
    uint unsigned_one[4u];
    mat3 both[+ +5][1];
};

struct Light {
    vec4 color;
};

struct Light {
    float power;
};

uniform Block {
    struct Inside { dvec4 d; } inside;
} block;
";

fn tag_of(ty: &ast::TypeSpecifierNonArray) -> TypeTag {
    match ty {
        ast::TypeSpecifierNonArray::Int => TypeTag::Int,
        ast::TypeSpecifierNonArray::UInt => TypeTag::UInt,
        ast::TypeSpecifierNonArray::Float => TypeTag::Float,
        ast::TypeSpecifierNonArray::Double => TypeTag::Double,
        ast::TypeSpecifierNonArray::Vec2 => TypeTag::Vec2,
        ast::TypeSpecifierNonArray::Vec3 => TypeTag::Vec3,
        ast::TypeSpecifierNonArray::Vec4 => TypeTag::Vec4,
        ast::TypeSpecifierNonArray::Mat2 => TypeTag::Mat2,
        ast::TypeSpecifierNonArray::Mat3 => TypeTag::Mat3,
        ast::TypeSpecifierNonArray::Mat4 => TypeTag::Mat4,
        ast::TypeSpecifierNonArray::DVec2 => TypeTag::DVec2,
        ast::TypeSpecifierNonArray::DVec3 => TypeTag::DVec3,
        ast::TypeSpecifierNonArray::DVec4 => TypeTag::DVec4,
        ast::TypeSpecifierNonArray::DMat2 => TypeTag::DMat2,
        ast::TypeSpecifierNonArray::DMat3 => TypeTag::DMat3,
        ast::TypeSpecifierNonArray::DMat4 => TypeTag::DMat4,
        ast::TypeSpecifierNonArray::BVec2 => TypeTag::BVec2,
        ast::TypeSpecifierNonArray::BVec3 => TypeTag::BVec3,
        ast::TypeSpecifierNonArray::BVec4 => TypeTag::BVec4,
        ast::TypeSpecifierNonArray::IVec2 => TypeTag::IVec2,
        ast::TypeSpecifierNonArray::IVec3 => TypeTag::IVec3,
        ast::TypeSpecifierNonArray::IVec4 => TypeTag::IVec4,
        ast::TypeSpecifierNonArray::UVec2 => TypeTag::UVec2,
        ast::TypeSpecifierNonArray::UVec3 => TypeTag::UVec3,
        ast::TypeSpecifierNonArray::UVec4 => TypeTag::UVec4,
        other => TypeTag::Unsupported(format!("{:?}", other)),
    }
}

fn op_of(op: &ast::UnaryOp) -> UnaryOp {
    match op {
        ast::UnaryOp::Inc => UnaryOp::Inc,
        ast::UnaryOp::Dec => UnaryOp::Dec,
        ast::UnaryOp::Add => UnaryOp::Add,
        ast::UnaryOp::Minus => UnaryOp::Minus,
        ast::UnaryOp::Not => UnaryOp::Not,
        ast::UnaryOp::Complement => UnaryOp::Complement,
    }
}

fn expr_of(expr: &ast::Expr) -> ConstExpr {
    match expr {
        ast::Expr::IntConst(value) => ConstExpr::IntConst(*value),
        ast::Expr::UIntConst(value) => ConstExpr::UIntConst(*value),
        ast::Expr::Unary(op, inner) => ConstExpr::Unary(op_of(op), Box::new(expr_of(inner))),
        _ => ConstExpr::Other,
    }
}

fn dims_of(spec: &Option<ast::ArraySpecifier>) -> Option<ArraySpecifier> {
    spec.as_ref().map(|spec| ArraySpecifier {
        dimensions: spec
            .dimensions
            .0
            .iter()
            .map(|dim| match dim {
                ast::ArraySpecifierDimension::Unsized => Dimension::Unsized,
                ast::ArraySpecifierDimension::ExplicitlySized(expr) => {
                    Dimension::ExplicitlySized(expr_of(expr))
                }
            })
            .collect(),
    })
}

fn declaration_of(spec: &ast::StructSpecifier) -> StructDeclaration {
    StructDeclaration {
        name: spec.name.as_ref().map(|name| name.0.clone()),
        fields: spec
            .fields
            .0
            .iter()
            .map(|field| FieldGroup {
                ty: tag_of(&field.ty.ty),
                array_specifier: dims_of(&field.ty.array_specifier),
                identifiers: field
                    .identifiers
                    .0
                    .iter()
                    .map(|ident| ArrayedIdentifier {
                        ident: ident.ident.0.clone(),
                        array_spec: dims_of(&ident.array_spec),
                    })
                    .collect(),
            })
            .collect(),
    }
}

struct Walk {
    finder: StructFinder,
    seen: Vec<StructDeclaration>,
}

impl Visitor for Walk {
    fn visit_struct_specifier(&mut self, input: &ast::StructSpecifier) -> Visit {
        self.seen.push(declaration_of(input));
        match self.finder.visit_struct_specifier(declaration_of(input)) {
            glrs::locate::Visit::Children => Visit::Children,
            glrs::locate::Visit::Parent => Visit::Parent,
        }
    }
}

fn walk(source: &str, ident: &str) -> Walk {
    let unit = ast::TranslationUnit::parse(source).unwrap();
    let mut walk = Walk { finder: StructFinder::new(ident), seen: Vec::new() };
    unit.visit(&mut walk);
    walk
}

fn convert(source: &str, ident: &str) -> Result<Vec<ResolvedField>, ConversionError> {
    let walked = walk(source, ident);
    let streamed =
        convert_found(String::from("source.glsl"), ident.to_owned(), walked.finder.result);
    let listed = get_fields(String::from("source.glsl"), ident.to_owned(), walked.seen);
    assert_eq!(streamed, listed);
    listed
}

fn bare(id: HostTypeId) -> HostType {
    HostType::Plain(id)
}

fn array_of(element: HostType, len: usize) -> HostType {
    HostType::Array(Box::new(element), len)
}

fn resolved(name: &str, ty: HostType, dim_count: usize, byte_size: usize) -> ResolvedField {
    ResolvedField { name: name.to_owned(), ty, dim_count, byte_size }
}

#[test]
fn parsed_camera_has_two_vectors() {
    assert_eq!(
        convert(SOURCE, "Camera"),
        Ok(vec![
            resolved("pos", bare(HostTypeId::Vec3), 1, 12),
            resolved("speed", bare(HostTypeId::Vec3), 1, 12),
        ])
    );
}

#[test]
fn parsed_arrays_nest_in_declaration_order() {
    assert_eq!(
        convert(SOURCE, "FieldTypes"),
        Ok(vec![
            resolved("vec3_l", bare(HostTypeId::Vec3), 1, 12),
            resolved("vec3_r", bare(HostTypeId::Vec3), 1, 12),
            resolved("arr", array_of(bare(HostTypeId::F32), 3), 3, 12),
            resolved("arr_arr", array_of(array_of(bare(HostTypeId::F32), 3), 2), 6, 24),
        ])
    );
}

#[test]
fn parsed_type_specifier_is_shared_by_the_identifiers() {
    assert_eq!(
        convert(SOURCE, "Shared"),
        Ok(vec![
            resolved("a", array_of(bare(HostTypeId::IVec2), 3), 3, 24),
            resolved("b", array_of(array_of(bare(HostTypeId::IVec2), 3), 2), 6, 48),
        ])
    );
}

#[test]
fn parsed_literals_under_plus_are_lengths() {
    assert_eq!(
        convert(SOURCE, "Literals"),
        Ok(vec![
            resolved("plus", array_of(bare(HostTypeId::F64), 2), 2, 16),
            resolved("unsigned_one", array_of(bare(HostTypeId::U32), 4), 4, 16),
            resolved("both", array_of(array_of(bare(HostTypeId::Mat3), 1), 5), 5, 180),
        ])
    );
}

#[test]
fn parsed_source_without_the_struct_names_path_and_identifier() {
    assert_eq!(
        convert(SOURCE, "Player"),
        Err(ConversionError::StructNotFound {
            path: String::from("source.glsl"),
            name: String::from("Player"),
        })
    );
}

#[test]
fn parsed_duplicate_resolves_to_the_first() {
    assert_eq!(convert(SOURCE, "Light"), Ok(vec![resolved("color", bare(HostTypeId::Vec4), 1, 16)]));
}

#[test]
fn parsed_declaration_inside_a_block_is_reached() {
    assert_eq!(convert(SOURCE, "Inside"), Ok(vec![resolved("d", bare(HostTypeId::DVec4), 1, 32)]));
}

#[test]
fn parsed_nested_declarations_are_not_entered() {
    let source = "struct Outer { struct Inner { dvec4 d; } inner; float x; };";
    let walked = walk(source, "Inner");
    assert_eq!(walked.seen.len(), 1);
    assert_eq!(walked.seen[0].name.as_deref(), Some("Outer"));
    assert_eq!(walked.finder.result, None);
    assert_eq!(
        convert(source, "Inner"),
        Err(ConversionError::StructNotFound {
            path: String::from("source.glsl"),
            name: String::from("Inner"),
        })
    );
}

#[test]
fn parsed_faulty_dimensions_are_rejected() {
    for (field, position, fault) in [
        ("float x[];", 0, DimensionFault::Unsized),
        ("float x[2][];", 1, DimensionFault::Unsized),
        ("float x[0];", 0, DimensionFault::NonPositive),
        ("float[3][0u] x;", 1, DimensionFault::NonPositive),
        ("float x[-1];", 0, DimensionFault::Unsupported),
        ("float x[N];", 0, DimensionFault::Unsupported),
        ("float x[1 + 1];", 0, DimensionFault::Unsupported),
        ("float x[2][3][int(4)];", 2, DimensionFault::Unsupported),
    ] {
        let source = format!("struct Faulty {{ vec2 fine; {field} }};");
        assert_eq!(
            convert(&source, "Faulty"),
            Err(ConversionError::InvalidArrayDimension { position, fault })
        );
    }
}

#[test]
fn parsed_types_without_host_counterpart_are_rejected() {
    for (field, description) in [
        ("bool flag;", "Bool"),
        ("mat2x3 m;", "Mat23"),
        ("sampler2D tex;", "Sampler2D"),
        ("Camera nested;", "TypeName(TypeName(\"Camera\"))"),
    ] {
        let source = format!("struct Odd {{ float fine; {field} }};");
        assert_eq!(
            convert(&source, "Odd"),
            Err(ConversionError::UnsupportedType { description: description.to_owned() })
        );
    }
}
