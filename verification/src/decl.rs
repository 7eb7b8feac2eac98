use vstd::prelude::*;

verus! {

/// The shape of one declaration member: `Simple` carries no associated
/// data; `Compound` carries fields (tuple or record) and is rejected.
#[derive(Clone, Copy, Debug, PartialEq, Eq, Structural)]
pub enum Shape {
    Simple,
    Compound,
}

/// One member of a declaration, as the classifier sees it: its
/// identifier's text and whether it carries fields.
pub struct RawVariant {
    pub name: String,
    pub shape: Shape,
}

/// A structured type declaration before validation: an enum with its
/// ordered members, or a struct or union (both rejected).
pub enum RawDecl {
    Enum { name: String, variants: Vec<RawVariant> },
    Struct,
    Union,
}

/// Why generation failed.
#[derive(Clone, Copy, Debug, PartialEq, Eq, Structural)]
pub enum GenError {
    /// The input could not be parsed as a type declaration at all.
    MalformedInput,
    /// The declaration is a struct or a union, not an enum.
    NotAnEnum,
    /// At least one variant carries associated fields.
    CompoundVariantRejected,
}

/// A validated declaration: an enum's name and the identifiers of its
/// simple variants, in declaration order.
pub struct EnumDecl {
    pub name: String,
    pub variants: Vec<String>,
}

/// The identifier texts of a validated declaration, in order.
pub open spec fn decl_names(d: EnumDecl) -> Seq<Seq<char>> {
    d.variants@.map_values(|s: String| s@)
}

/// The identifier texts of a raw variant list, in order.
pub open spec fn raw_names(vs: Seq<RawVariant>) -> Seq<Seq<char>> {
    vs.map_values(|v: RawVariant| v.name@)
}

/// Every member of the list is a simple (fieldless) variant.
pub open spec fn all_simple(vs: Seq<RawVariant>) -> bool {
    forall|i: int| 0 <= i < vs.len() ==> vs[i].shape == Shape::Simple
}

/// Each member of the list as the parser hands it over: its identifier
/// text and whether it is fieldless.
pub open spec fn variant_views(vs: Seq<RawVariant>) -> Seq<(Seq<char>, bool)> {
    vs.map_values(|v: RawVariant| (v.name@, v.shape == Shape::Simple))
}

/// What validation returns: the enum's name and ordered variant texts
/// when the declaration is an enum of simple variants, and otherwise
/// exactly which error rejects it.
pub open spec fn validate_spec(d: RawDecl) -> Result<(Seq<char>, Seq<Seq<char>>), GenError> {
    match d {
        RawDecl::Enum { name, variants } => {
            if all_simple(variants@) {
                Ok((name@, raw_names(variants@)))
            } else {
                Err(GenError::CompoundVariantRejected)
            }
        },
        RawDecl::Struct => Err(GenError::NotAnEnum),
        RawDecl::Union => Err(GenError::NotAnEnum),
    }
}

/// Classify and validate a raw declaration: accept an enum whose
/// variants are all simple, keeping name and order; reject a struct or
/// union as `NotAnEnum` and any field-carrying variant as
/// `CompoundVariantRejected`.
pub fn validate(d: RawDecl) -> (r: Result<EnumDecl, GenError>)
    ensures
        r matches Ok(e) ==> validate_spec(d) == Ok::<(Seq<char>, Seq<Seq<char>>), GenError>(
            (e.name@, decl_names(e)),
        ),
        r matches Err(err) ==> validate_spec(d) == Err::<(Seq<char>, Seq<Seq<char>>), GenError>(
            err,
        ),
{
    match d {
        RawDecl::Enum { name, variants } => {
            let ghost vs = variants@;
            let mut names: Vec<String> = Vec::new();
            let mut i: usize = 0;
            while i < variants.len()
                invariant
                    i <= vs.len(),
                    variants@ == vs,
                    d == (RawDecl::Enum { name, variants }),
                    names@.len() == i,
                    forall|j: int| 0 <= j < i ==> vs[j].shape == Shape::Simple,
                    forall|j: int| 0 <= j < i ==> names@[j]@ == vs[j].name@,
                decreases vs.len() - i,
            {
                match variants[i].shape {
                    Shape::Compound => {
                        assert(!all_simple(vs));
                        return Err(GenError::CompoundVariantRejected);
                    },
                    Shape::Simple => {},
                }
                names.push(variants[i].name.clone());
                i += 1;
            }
            let e = EnumDecl { name, variants: names };
            proof {
                assert(decl_names(e) =~= raw_names(vs));
            }
            Ok(e)
        },
        RawDecl::Struct => Err(GenError::NotAnEnum),
        RawDecl::Union => Err(GenError::NotAnEnum),
    }
}

/// Law: rejection: a declaration that is not an enum, or that carries
/// at least one compound variant, is rejected outright; validation
/// yields an error and no fragment is ever synthesized from it.
pub proof fn lemma_rejection(d: RawDecl)
    requires
        match d {
            RawDecl::Enum { variants, .. } => !all_simple(variants@),
            RawDecl::Struct => true,
            RawDecl::Union => true,
        },
    ensures
        validate_spec(d) is Err,
{
}

} // verus!
