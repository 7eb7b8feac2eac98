use enumease::decl::EnumDecl;
use enumease::model::{display_text, iteration_sequence, parse_from_string};
use enumease::{EnumFromStr, EnumIter};

fn foo_decl() -> EnumDecl {
    EnumDecl {
        name: "Foo".to_string(),
        variants: vec!["Bla".to_string(), "Faa".to_string(), "Caa".to_string()],
    }
}

#[test]
fn display_maps_each_variant_to_its_identifier() {
    let d = foo_decl();
    assert_eq!(display_text(&d, 0).as_str(), "Bla");
    assert_eq!(display_text(&d, 1).as_str(), "Faa");
    assert_eq!(display_text(&d, 2).as_str(), "Caa");
}

#[test]
fn iteration_yields_declaration_order() {
    let d = foo_decl();
    let seq = iteration_sequence(&d);
    assert_eq!(seq, vec!["Bla".to_string(), "Faa".to_string(), "Caa".to_string()]);
}

#[test]
fn iteration_is_restartable() {
    let d = foo_decl();
    assert_eq!(iteration_sequence(&d), iteration_sequence(&d));
}

#[test]
fn parse_hits_each_displayed_variant() {
    let d = foo_decl();
    for i in 0..d.variants.len() {
        let text = display_text(&d, i).clone();
        assert_eq!(parse_from_string(&d, &text), Some(i));
    }
}

#[test]
fn parse_scenario_for_foo() {
    let d = foo_decl();
    assert_eq!(parse_from_string(&d, "Bla"), Some(0));
    assert_eq!(parse_from_string(&d, "Zzz"), None);
}

#[test]
fn parse_is_case_sensitive_and_exact() {
    let d = foo_decl();
    assert_eq!(parse_from_string(&d, "bla"), None);
    assert_eq!(parse_from_string(&d, "Bla "), None);
    assert_eq!(parse_from_string(&d, ""), None);
}

#[test]
fn empty_declaration_iterates_nothing_and_never_parses() {
    let d = EnumDecl { name: "Nothing".to_string(), variants: vec![] };
    assert_eq!(iteration_sequence(&d), Vec::<String>::new());
    assert_eq!(parse_from_string(&d, "anything"), None);
    assert_eq!(parse_from_string(&d, ""), None);
}

// The code the generator emits for `enum Foo { Bla, Faa, Caa }`,
// written out by hand against the library's capability traits, behaves
// as the model says it does.
#[derive(Clone, Copy, Debug, PartialEq)]
enum Foo {
    Bla,
    Faa,
    Caa,
}

impl std::fmt::Display for Foo {
    fn fmt(&self, f: &mut std::fmt::Formatter) -> std::fmt::Result {
        match *self {
            Foo::Bla => f.write_str("Bla"),
            Foo::Faa => f.write_str("Faa"),
            Foo::Caa => f.write_str("Caa"),
        }
    }
}

impl EnumIter for Foo {
    fn iterator() -> std::slice::Iter<'static, Foo> {
        static FOO: [Foo; 3] = [Foo::Bla, Foo::Faa, Foo::Caa];
        FOO.iter()
    }
}

impl EnumFromStr for Foo {
    fn from_str(key: &str) -> Option<Foo> {
        for field in Foo::iterator() {
            let fieldstr = field.to_string();
            if fieldstr == key {
                return Some(field.clone());
            }
        }
        None
    }
}

#[test]
fn generated_shape_round_trips_at_runtime() {
    let order: Vec<Foo> = Foo::iterator().cloned().collect();
    assert_eq!(order, vec![Foo::Bla, Foo::Faa, Foo::Caa]);
    assert_eq!(Foo::Bla.to_string(), "Bla");
    assert_eq!(Foo::from_str("Bla"), Some(Foo::Bla));
    assert_eq!(Foo::from_str("Faa"), Some(Foo::Faa));
    assert_eq!(Foo::from_str("Caa"), Some(Foo::Caa));
    assert_eq!(Foo::from_str("Zzz"), None);
}
