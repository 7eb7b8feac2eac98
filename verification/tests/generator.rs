use enumease::decl::{GenError, RawDecl, RawVariant, Shape, validate};
use enumease::parse::parse_declaration;
use enumease::{enum_display, enum_from_str, enum_iter};

const FOO_DECL: &str = "enum Foo { Bla, Faa, Caa }";

#[test]
fn display_fragment_for_foo() {
    let out = enum_display(FOO_DECL).unwrap();
    let expected = "impl std::fmt::Display for Foo {\n    fn fmt(&self, f: &mut std::fmt::Formatter) -> std::fmt::Result {\n        match *self {\n            Foo::Bla => write!(f, \"Bla\"),\n            Foo::Faa => write!(f, \"Faa\"),\n            Foo::Caa => write!(f, \"Caa\"),\n        }\n    }\n}\n";
    assert_eq!(out, expected);
}

#[test]
fn iter_fragment_for_foo() {
    let out = enum_iter(FOO_DECL).unwrap();
    let expected = "impl EnumIter for Foo {\n    fn iterator() -> Iter<'static, Self> where Self: marker::Sized {\n        static FOO: [Foo; 3] = [Foo::Bla, Foo::Faa, Foo::Caa, ];\n        FOO.into_iter()\n    }\n}\n";
    assert_eq!(out, expected);
}

#[test]
fn from_str_fragment_for_foo() {
    let out = enum_from_str(FOO_DECL).unwrap();
    let expected = "impl EnumFromStr for Foo {\n    fn from_str(key: &str) -> Option<Self> where Self: marker::Sized {\n        for field in Self::iterator() {\n            let fieldstr = field.to_string();\n            if fieldstr == key {\n                return Some(field.clone());\n            }\n        }\n        None\n    }\n}\n";
    assert_eq!(out, expected);
}

#[test]
fn iter_fragment_uppercases_mixed_case_name() {
    let out = enum_iter("enum MixedCase { A, B }").unwrap();
    assert!(out.contains("static MIXEDCASE: [MixedCase; 2] = [MixedCase::A, MixedCase::B, ];"));
}

#[test]
fn empty_enum_fragments() {
    let display = enum_display("enum Nothing {}").unwrap();
    assert_eq!(
        display,
        "impl std::fmt::Display for Nothing {\n    fn fmt(&self, f: &mut std::fmt::Formatter) -> std::fmt::Result {\n        match *self {\n        }\n    }\n}\n"
    );
    let iter = enum_iter("enum Nothing {}").unwrap();
    assert!(iter.contains("static NOTHING: [Nothing; 0] = [];"));
}

#[test]
fn struct_declaration_is_rejected() {
    let r = enum_display("struct Point { x: u32, y: u32 }");
    assert_eq!(r, Err(GenError::NotAnEnum));
    let r = enum_iter("struct Empty;");
    assert_eq!(r, Err(GenError::NotAnEnum));
}

#[test]
fn union_declaration_is_rejected() {
    let r = enum_from_str("union Both { a: u32, b: i32 }");
    assert_eq!(r, Err(GenError::NotAnEnum));
}

#[test]
fn compound_variant_is_rejected() {
    let r = enum_display("enum E { A, B(u32) }");
    assert_eq!(r, Err(GenError::CompoundVariantRejected));
    let r = enum_iter("enum E { A, B { x: u32 } }");
    assert_eq!(r, Err(GenError::CompoundVariantRejected));
    let r = enum_from_str("enum E { A(u32) }");
    assert_eq!(r, Err(GenError::CompoundVariantRejected));
}

#[test]
fn malformed_input_is_rejected() {
    assert_eq!(enum_display("fn not_a_type() {}"), Err(GenError::MalformedInput));
    assert_eq!(enum_iter("enum Foo { Bla"), Err(GenError::MalformedInput));
    assert_eq!(enum_from_str(""), Err(GenError::MalformedInput));
}

#[test]
fn parse_declaration_classifies_variants() {
    let raw = parse_declaration("enum E { A, B(u32), C }").unwrap();
    match raw {
        RawDecl::Enum { name, variants } => {
            assert_eq!(name, "E");
            assert_eq!(variants.len(), 3);
            assert_eq!(variants[0].name, "A");
            assert!(matches!(variants[0].shape, Shape::Simple));
            assert_eq!(variants[1].name, "B");
            assert!(matches!(variants[1].shape, Shape::Compound));
            assert_eq!(variants[2].name, "C");
            assert!(matches!(variants[2].shape, Shape::Simple));
        },
        _ => panic!("expected an enum declaration"),
    }
}

#[test]
fn validate_keeps_name_and_order() {
    let raw = RawDecl::Enum {
        name: "Foo".to_string(),
        variants: vec![
            RawVariant { name: "Bla".to_string(), shape: Shape::Simple },
            RawVariant { name: "Faa".to_string(), shape: Shape::Simple },
            RawVariant { name: "Caa".to_string(), shape: Shape::Simple },
        ],
    };
    let d = validate(raw).unwrap();
    assert_eq!(d.name, "Foo");
    assert_eq!(d.variants, vec!["Bla".to_string(), "Faa".to_string(), "Caa".to_string()]);
}

#[test]
fn validate_rejects_compound() {
    let raw = RawDecl::Enum {
        name: "E".to_string(),
        variants: vec![
            RawVariant { name: "A".to_string(), shape: Shape::Simple },
            RawVariant { name: "B".to_string(), shape: Shape::Compound },
        ],
    };
    assert_eq!(validate(raw).err(), Some(GenError::CompoundVariantRejected));
}
