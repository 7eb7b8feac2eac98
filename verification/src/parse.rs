use vstd::prelude::*;

use crate::decl::{GenError, RawDecl, RawVariant, Shape, variant_views};

verus! {

/// The kind of a parsed type declaration.
#[derive(Clone, Copy, Debug, PartialEq, Eq, Structural)]
pub enum DeclKind {
    Enum,
    Struct,
    Union,
}

/// The members of a parsed declaration, each as its identifier text
/// and whether it is fieldless.
pub open spec fn member_views(ms: Seq<(String, bool)>) -> Seq<(Seq<char>, bool)> {
    ms.map_values(|m: (String, bool)| (m.0@, m.1))
}

/// The identifier texts of parsed members, in order.
pub open spec fn member_names(ms: Seq<(Seq<char>, bool)>) -> Seq<Seq<char>> {
    ms.map_values(|m: (Seq<char>, bool)| m.0)
}

/// Every parsed member is fieldless.
pub open spec fn all_fieldless(ms: Seq<(Seq<char>, bool)>) -> bool {
    forall|i: int| 0 <= i < ms.len() ==> ms[i].1
}

/// What parsing one declaration text yields: `None` when the text is
/// not a type declaration at all; otherwise the declaration's kind,
/// its name, and per member its identifier text and whether it is
/// fieldless, in declaration order.
pub uninterp spec fn parse_of(s: Seq<char>) -> Option<(DeclKind, Seq<char>, Seq<(Seq<char>, bool)>)>;

/// Relies on syn::parse_str::<syn::DeriveInput>, whose result depends
/// on the text alone and which returns every failure as an error; on
/// syn::Data to tell an enum, struct and union apart; and on
/// syn::Ident's Display impl for the identifier texts.
#[verifier::external_body]
fn parse_decl_text(input: &str) -> (r: Option<(DeclKind, String, Vec<(String, bool)>)>)
    ensures
        match r {
            Some(p) => parse_of(input@) == Some((p.0, p.1@, member_views(p.2@))),
            None => parse_of(input@) is None,
        },
{
    let ast = match syn::parse_str::<syn::DeriveInput>(input) {
        Ok(a) => a,
        Err(_) => return None,
    };
    let name = ast.ident.to_string();
    let (kind, members) = match ast.data {
        syn::Data::Enum(e) => (DeclKind::Enum, e.variants.into_iter().map(
            |v| (v.ident.to_string(), matches!(v.fields, syn::Fields::Unit))).collect()),
        syn::Data::Struct(_) => (DeclKind::Struct, Vec::new()),
        syn::Data::Union(_) => (DeclKind::Union, Vec::new()),
    };
    Some((kind, name, members))
}

/// Classify each parsed member: a fieldless member becomes a simple
/// variant, any other a compound one, keeping identifier and order.
fn classify_members(ms: &Vec<(String, bool)>) -> (r: Vec<RawVariant>)
    ensures
        variant_views(r@) == member_views(ms@),
{
    let mut out: Vec<RawVariant> = Vec::new();
    let mut i: usize = 0;
    while i < ms.len()
        invariant
            i <= ms@.len(),
            out@.len() == i,
            forall|j: int| 0 <= j < i ==> out@[j].name@ == ms@[j].0@,
            forall|j: int| 0 <= j < i ==> ((out@[j].shape == Shape::Simple) <==> ms@[j].1),
        decreases ms@.len() - i,
    {
        let name = ms[i].0.clone();
        let shape = if ms[i].1 {
            Shape::Simple
        } else {
            Shape::Compound
        };
        out.push(RawVariant { name, shape });
        i += 1;
    }
    proof {
        assert(variant_views(out@) =~= member_views(ms@));
    }
    out
}

/// The raw declaration carries exactly what the parse result holds:
/// the same kind, and for an enum the same name and the same members
/// with their shapes.
pub open spec fn raw_decl_matches(d: RawDecl, p: (DeclKind, Seq<char>, Seq<(Seq<char>, bool)>)) -> bool {
    match d {
        RawDecl::Enum { name, variants } => {
            &&& p.0 == DeclKind::Enum
            &&& name@ == p.1
            &&& variant_views(variants@) == p.2
        },
        RawDecl::Struct => p.0 == DeclKind::Struct,
        RawDecl::Union => p.0 == DeclKind::Union,
    }
}

/// Parse the text of one type declaration into the raw structured form
/// the validator works on: `MalformedInput` exactly when the text does
/// not parse, and otherwise the structured value the parse result
/// describes.
pub fn parse_declaration(input: &str) -> (r: Result<RawDecl, GenError>)
    ensures
        parse_of(input@) is None <==> r == Err::<RawDecl, GenError>(GenError::MalformedInput),
        parse_of(input@) matches Some(p) ==> (r matches Ok(d) && raw_decl_matches(d, p)),
{
    match parse_decl_text(input) {
        None => Err(GenError::MalformedInput),
        Some((kind, name, members)) => {
            match kind {
                DeclKind::Enum => {
                    let variants = classify_members(&members);
                    Ok(RawDecl::Enum { name, variants })
                },
                DeclKind::Struct => Ok(RawDecl::Struct),
                DeclKind::Union => Ok(RawDecl::Union),
            }
        },
    }
}

} // verus!
