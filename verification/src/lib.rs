//! Code generation for simple enums: given the text of a type
//! declaration, produce the source of a string-display impl, an ordered
//! static-iteration impl, or a parse-from-string impl, rejecting any
//! declaration that is not an enum of fieldless variants.

use vstd::prelude::*;

pub mod decl;
pub mod emit;
pub mod model;
pub mod parse;

pub use crate::decl::GenError;
pub use crate::emit::Mode;
pub use crate::parse::DeclKind;

use crate::decl::{RawDecl, all_simple, raw_names, validate_spec, variant_views};
use crate::emit::fragment_text;
use crate::parse::{all_fieldless, member_names, parse_of, raw_decl_matches};

verus! {

/// The iteration capability the generated code implements: a finite,
/// restartable sequence over every variant, in declaration order.
pub trait EnumIter {
    fn iterator() -> core::slice::Iter<'static, Self> where Self: Sized;
}

/// The lookup capability the generated code implements: the variant
/// whose display text equals the key, or `None` on a miss.
pub trait EnumFromStr: EnumIter {
    fn from_str(key: &str) -> Option<Self> where Self: Sized;
}

/// What the whole generator returns for one input text: the malformed
/// error exactly when the text does not parse as a type declaration;
/// the not-an-enum error for a struct or union; the compound-variant
/// error when any member carries fields; and otherwise the rendered
/// fragment of the requested capability for that very declaration.
pub open spec fn pipeline_spec(input: Seq<char>, mode: Mode) -> Result<Seq<char>, GenError> {
    match parse_of(input) {
        None => Err(GenError::MalformedInput),
        Some(p) => {
            if p.0 != DeclKind::Enum {
                Err(GenError::NotAnEnum)
            } else if !all_fieldless(p.2) {
                Err(GenError::CompoundVariantRejected)
            } else {
                Ok(fragment_text(p.1, member_names(p.2), mode))
            }
        },
    }
}

/// Validation agrees with the parse result it was built from: the
/// non-enum and compound rejections, and the accepted name and order,
/// are the same whether read off the raw declaration or the parse
/// result.
proof fn lemma_validate_bridge(d: RawDecl, p: (DeclKind, Seq<char>, Seq<(Seq<char>, bool)>))
    requires
        raw_decl_matches(d, p),
    ensures
        p.0 != DeclKind::Enum ==> validate_spec(d) == Err::<(Seq<char>, Seq<Seq<char>>), GenError>(
            GenError::NotAnEnum,
        ),
        p.0 == DeclKind::Enum && all_fieldless(p.2) ==> validate_spec(d) == Ok::<
            (Seq<char>, Seq<Seq<char>>),
            GenError,
        >((p.1, member_names(p.2))),
        p.0 == DeclKind::Enum && !all_fieldless(p.2) ==> validate_spec(d) == Err::<
            (Seq<char>, Seq<Seq<char>>),
            GenError,
        >(GenError::CompoundVariantRejected),
{
    match d {
        RawDecl::Enum { name, variants } => {
            assert forall|i: int| 0 <= i < variants@.len() implies (variants@[i].shape
                == crate::decl::Shape::Simple) <==> p.2[i].1 by {
                assert(variant_views(variants@)[i] == p.2[i]);
            }
            assert(all_simple(variants@) <==> all_fieldless(p.2));
            if all_simple(variants@) {
                assert forall|i: int| 0 <= i < variants@.len() implies raw_names(variants@)[i]
                    == member_names(p.2)[i] by {
                    assert(variant_views(variants@)[i] == p.2[i]);
                }
                assert(raw_names(variants@) =~= member_names(p.2));
            }
        },
        RawDecl::Struct => {},
        RawDecl::Union => {},
    }
}

/// The pipeline every entry point runs: parse the declaration text,
/// classify and validate its members, then synthesize and emit the
/// fragment of the requested capability.
fn run(input: &str, mode: Mode) -> (r: Result<String, GenError>)
    ensures
        r matches Ok(s) ==> pipeline_spec(input@, mode) == Ok::<Seq<char>, GenError>(s@),
        r matches Err(e) ==> pipeline_spec(input@, mode) == Err::<Seq<char>, GenError>(e),
{
    match parse::parse_declaration(input) {
        Err(e) => Err(e),
        Ok(d) => {
            proof {
                assert(parse_of(input@) is Some);
                lemma_validate_bridge(d, parse_of(input@)->Some_0);
            }
            match emit::generate(d, mode) {
                Ok(s) => Ok(s),
                Err(e) => Err(e),
            }
        },
    }
}

/// Generate the string-display impl for the declaration in `input`:
/// one match arm per simple variant, mapping the variant to the
/// literal text of its identifier.
pub fn enum_display(input: &str) -> (r: Result<String, GenError>)
    ensures
        r matches Ok(s) ==> pipeline_spec(input@, Mode::Display) == Ok::<Seq<char>, GenError>(s@),
        r matches Err(e) ==> pipeline_spec(input@, Mode::Display) == Err::<Seq<char>, GenError>(e),
{
    run(input, Mode::Display)
}

/// Generate the `EnumIter` impl for the declaration in `input`: a
/// static table under the upper-cased declaration name, holding every
/// variant in declaration order, and an iterator over it.
pub fn enum_iter(input: &str) -> (r: Result<String, GenError>)
    ensures
        r matches Ok(s) ==> pipeline_spec(input@, Mode::Iter) == Ok::<Seq<char>, GenError>(s@),
        r matches Err(e) ==> pipeline_spec(input@, Mode::Iter) == Err::<Seq<char>, GenError>(e),
{
    run(input, Mode::Iter)
}

/// Generate the `EnumFromStr` impl for the declaration in `input`: a
/// lookup that scans the iteration sequence and returns the first
/// variant whose display text equals the key, or `None`.
pub fn enum_from_str(input: &str) -> (r: Result<String, GenError>)
    ensures
        r matches Ok(s) ==> pipeline_spec(input@, Mode::FromStr) == Ok::<Seq<char>, GenError>(s@),
        r matches Err(e) ==> pipeline_spec(input@, Mode::FromStr) == Err::<Seq<char>, GenError>(
            e,
        ),
{
    run(input, Mode::FromStr)
}

} // verus!
