use glrs::locate::{StructFinder, Visit};
use glrs::syntax::{ArrayedIdentifier, FieldGroup, StructDeclaration, TypeTag};

fn declaration(name: Option<&str>, field: &str) -> StructDeclaration {
    StructDeclaration {
        name: name.map(str::to_owned),
        fields: vec![FieldGroup {
            ty: TypeTag::Float,
            array_specifier: None,
            identifiers: vec![ArrayedIdentifier { ident: field.to_owned(), array_spec: None }],
        }],
    }
}

#[test]
fn a_new_finder_has_found_nothing() {
    let finder = StructFinder::new("Camera");
    assert_eq!(finder.target, "Camera");
    assert_eq!(finder.result, None);
}

#[test]
fn a_visit_never_descends() {
    let mut finder = StructFinder::new("Camera");
    assert_eq!(finder.visit_struct_specifier(declaration(Some("Light"), "a")), Visit::Parent);
    assert_eq!(finder.visit_struct_specifier(declaration(Some("Camera"), "b")), Visit::Parent);
    assert_eq!(finder.visit_struct_specifier(declaration(None, "c")), Visit::Parent);
}

#[test]
fn the_finder_keeps_the_first_match() {
    let mut finder = StructFinder::new("Camera");
    finder.visit_struct_specifier(declaration(Some("Light"), "a"));
    assert_eq!(finder.result, None);
    finder.visit_struct_specifier(declaration(None, "b"));
    assert_eq!(finder.result, None);
    finder.visit_struct_specifier(declaration(Some("Camera"), "c"));
    assert_eq!(finder.result, Some(declaration(Some("Camera"), "c")));
    finder.visit_struct_specifier(declaration(Some("Camera"), "d"));
    assert_eq!(finder.result, Some(declaration(Some("Camera"), "c")));
    finder.visit_struct_specifier(declaration(Some("Light"), "e"));
    assert_eq!(finder.result, Some(declaration(Some("Camera"), "c")));
    assert_eq!(finder.target, "Camera");
}
