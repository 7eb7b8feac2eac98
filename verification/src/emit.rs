use vstd::prelude::*;
use vstd::string::StringExecFns;

use crate::decl::{EnumDecl, GenError, RawDecl, decl_names, validate, validate_spec};

verus! {

/// Which capability a fragment implements.
#[derive(Clone, Copy, Debug, PartialEq, Eq, Structural)]
pub enum Mode {
    Display,
    Iter,
    FromStr,
}

/// The character of one decimal digit.
pub open spec fn digit_char(d: int) -> char {
    if d == 0 {
        '0'
    } else if d == 1 {
        '1'
    } else if d == 2 {
        '2'
    } else if d == 3 {
        '3'
    } else if d == 4 {
        '4'
    } else if d == 5 {
        '5'
    } else if d == 6 {
        '6'
    } else if d == 7 {
        '7'
    } else if d == 8 {
        '8'
    } else {
        '9'
    }
}

/// The decimal rendering of a number, most significant digit first.
pub open spec fn dec_rep(n: nat) -> Seq<char>
    decreases n,
{
    if n < 10 {
        seq![digit_char(n as int)]
    } else {
        dec_rep(n / 10) + seq![digit_char((n % 10) as int)]
    }
}

/// One decimal digit as a string.
fn digit_string(d: usize) -> (r: String)
    requires
        d < 10,
    ensures
        r@ == seq![digit_char(d as int)],
{
    let s: &str = if d == 0 {
        "0"
    } else if d == 1 {
        "1"
    } else if d == 2 {
        "2"
    } else if d == 3 {
        "3"
    } else if d == 4 {
        "4"
    } else if d == 5 {
        "5"
    } else if d == 6 {
        "6"
    } else if d == 7 {
        "7"
    } else if d == 8 {
        "8"
    } else {
        "9"
    };
    proof {
        reveal_strlit("0");
        reveal_strlit("1");
        reveal_strlit("2");
        reveal_strlit("3");
        reveal_strlit("4");
        reveal_strlit("5");
        reveal_strlit("6");
        reveal_strlit("7");
        reveal_strlit("8");
        reveal_strlit("9");
        assert(s@ =~= seq![digit_char(d as int)]);
    }
    String::from_str(s)
}

/// The decimal rendering of a number.
fn dec_string(n: usize) -> (r: String)
    ensures
        r@ == dec_rep(n as nat),
    decreases n,
{
    if n < 10 {
        digit_string(n)
    } else {
        let mut s = dec_string(n / 10);
        let d = digit_string(n % 10);
        s.append(d.as_str());
        s
    }
}

/// What `str::to_uppercase` returns for a given character sequence.
pub uninterp spec fn upper_of(s: Seq<char>) -> Seq<char>;

/// Relies on str::to_uppercase: the uppercase form of a string depends
/// on its characters alone, and an empty string stays empty.
#[verifier::external_body]
fn to_upper(s: &str) -> (r: String)
    ensures
        r@ == upper_of(s@),
        s@.len() == 0 ==> r@.len() == 0,
{
    s.to_uppercase()
}

/// One match arm of the display fragment: the variant pattern mapped
/// to the literal text of its identifier.
pub open spec fn display_arm(name: Seq<char>, v: Seq<char>) -> Seq<char> {
    "            "@ + name + "::"@ + v + " => write!(f, \""@ + v + "\"),\n"@
}

/// All match arms of the display fragment, in declaration order.
pub open spec fn display_arms(name: Seq<char>, vs: Seq<Seq<char>>) -> Seq<char>
    decreases vs.len(),
{
    if vs.len() == 0 {
        Seq::<char>::empty()
    } else {
        display_arms(name, vs.drop_last()) + display_arm(name, vs.last())
    }
}

/// One element of the iteration fragment's static table.
pub open spec fn iter_elem(name: Seq<char>, v: Seq<char>) -> Seq<char> {
    name + "::"@ + v + ", "@
}

/// The elements of the iteration fragment's static table, in
/// declaration order.
pub open spec fn iter_elems(name: Seq<char>, vs: Seq<Seq<char>>) -> Seq<char>
    decreases vs.len(),
{
    if vs.len() == 0 {
        Seq::<char>::empty()
    } else {
        iter_elems(name, vs.drop_last()) + iter_elem(name, vs.last())
    }
}

/// The rendered display fragment: an impl of the host language's
/// string-conversion trait with one arm per simple variant.
pub open spec fn display_fragment(name: Seq<char>, vs: Seq<Seq<char>>) -> Seq<char> {
    "impl std::fmt::Display for "@ + name
        + " {\n    fn fmt(&self, f: &mut std::fmt::Formatter) -> std::fmt::Result {\n        match *self {\n"@
        + display_arms(name, vs) + "        }\n    }\n}\n"@
}

/// The rendered iteration fragment: a static table named by the
/// upper-cased declaration name, holding every variant in order, and
/// an iterator over it.
pub open spec fn iter_fragment(name: Seq<char>, vs: Seq<Seq<char>>) -> Seq<char> {
    "impl EnumIter for "@ + name
        + " {\n    fn iterator() -> Iter<'static, Self> where Self: marker::Sized {\n        static "@
        + upper_of(name) + ": ["@ + name + "; "@ + dec_rep(vs.len()) + "] = ["@ + iter_elems(
        name,
        vs,
    ) + "];\n        "@ + upper_of(name) + ".into_iter()\n    }\n}\n"@
}

/// The rendered parse fragment: scan the iteration sequence and return
/// the first variant whose display text equals the key.
pub open spec fn from_str_fragment(name: Seq<char>) -> Seq<char> {
    "impl EnumFromStr for "@ + name
        + " {\n    fn from_str(key: &str) -> Option<Self> where Self: marker::Sized {\n        for field in Self::iterator() {\n            let fieldstr = field.to_string();\n            if fieldstr == key {\n                return Some(field.clone());\n            }\n        }\n        None\n    }\n}\n"@
}

/// The rendered fragment for one declaration and one requested
/// capability.
pub open spec fn fragment_text(name: Seq<char>, vs: Seq<Seq<char>>, mode: Mode) -> Seq<char> {
    match mode {
        Mode::Display => display_fragment(name, vs),
        Mode::Iter => iter_fragment(name, vs),
        Mode::FromStr => from_str_fragment(name),
    }
}

/// Build the display fragment's match arms.
fn build_display_arms(name: &String, variants: &Vec<String>) -> (r: String)
    ensures
        r@ == display_arms(name@, decl_names_of(variants@)),
{
    let ghost vs = decl_names_of(variants@);
    let mut out = String::new();
    let mut i: usize = 0;
    while i < variants.len()
        invariant
            i <= variants@.len(),
            vs == decl_names_of(variants@),
            vs.len() == variants@.len(),
            out@ == display_arms(name@, vs.take(i as int)),
        decreases variants@.len() - i,
    {
        out.append("            ");
        out.append(name.as_str());
        out.append("::");
        out.append(variants[i].as_str());
        out.append(" => write!(f, \"");
        out.append(variants[i].as_str());
        out.append("\"),\n");
        i += 1;
        proof {
            assert(vs.take(i as int).drop_last() =~= vs.take(i as int - 1));
            assert(vs.take(i as int).last() == vs[i as int - 1]);
            assert(out@ =~= display_arms(name@, vs.take(i as int)));
        }
    }
    proof {
        assert(vs.take(vs.len() as int) =~= vs);
    }
    out
}

/// Build the iteration fragment's table elements.
fn build_iter_elems(name: &String, variants: &Vec<String>) -> (r: String)
    ensures
        r@ == iter_elems(name@, decl_names_of(variants@)),
{
    let ghost vs = decl_names_of(variants@);
    let mut out = String::new();
    let mut i: usize = 0;
    while i < variants.len()
        invariant
            i <= variants@.len(),
            vs == decl_names_of(variants@),
            vs.len() == variants@.len(),
            out@ == iter_elems(name@, vs.take(i as int)),
        decreases variants@.len() - i,
    {
        out.append(name.as_str());
        out.append("::");
        out.append(variants[i].as_str());
        out.append(", ");
        i += 1;
        proof {
            assert(vs.take(i as int).drop_last() =~= vs.take(i as int - 1));
            assert(vs.take(i as int).last() == vs[i as int - 1]);
            assert(out@ =~= iter_elems(name@, vs.take(i as int)));
        }
    }
    proof {
        assert(vs.take(vs.len() as int) =~= vs);
    }
    out
}

/// The identifier texts of a variant list, in order.
pub open spec fn decl_names_of(variants: Seq<String>) -> Seq<Seq<char>> {
    variants.map_values(|s: String| s@)
}

/// Synthesize and emit the fragment of one capability for a validated
/// declaration: exactly the rendered text of that declaration's name
/// and ordered variants.
pub fn synthesize(d: &EnumDecl, mode: Mode) -> (r: String)
    ensures
        r@ == fragment_text(d.name@, decl_names(*d), mode),
{
    proof {
        assert(decl_names(*d) == decl_names_of(d.variants@));
    }
    match mode {
        Mode::Display => {
            let mut out = String::new();
            out.append("impl std::fmt::Display for ");
            out.append(d.name.as_str());
            out.append(
                " {\n    fn fmt(&self, f: &mut std::fmt::Formatter) -> std::fmt::Result {\n        match *self {\n",
            );
            let arms = build_display_arms(&d.name, &d.variants);
            out.append(arms.as_str());
            out.append("        }\n    }\n}\n");
            proof {
                assert(out@ =~= display_fragment(d.name@, decl_names(*d)));
            }
            out
        },
        Mode::Iter => {
            let upper = to_upper(d.name.as_str());
            let size = dec_string(d.variants.len());
            let elems = build_iter_elems(&d.name, &d.variants);
            let mut out = String::new();
            out.append("impl EnumIter for ");
            out.append(d.name.as_str());
            out.append(
                " {\n    fn iterator() -> Iter<'static, Self> where Self: marker::Sized {\n        static ",
            );
            out.append(upper.as_str());
            out.append(": [");
            out.append(d.name.as_str());
            out.append("; ");
            out.append(size.as_str());
            out.append("] = [");
            out.append(elems.as_str());
            out.append("];\n        ");
            out.append(upper.as_str());
            out.append(".into_iter()\n    }\n}\n");
            proof {
                assert(out@ =~= iter_fragment(d.name@, decl_names(*d)));
            }
            out
        },
        Mode::FromStr => {
            let mut out = String::new();
            out.append("impl EnumFromStr for ");
            out.append(d.name.as_str());
            out.append(
                " {\n    fn from_str(key: &str) -> Option<Self> where Self: marker::Sized {\n        for field in Self::iterator() {\n            let fieldstr = field.to_string();\n            if fieldstr == key {\n                return Some(field.clone());\n            }\n        }\n        None\n    }\n}\n",
            );
            proof {
                assert(out@ =~= from_str_fragment(d.name@));
            }
            out
        },
    }
}

/// Validate a raw declaration and, when it passes, synthesize the
/// fragment of the requested capability; otherwise hand back exactly
/// the validation error.
pub fn generate(d: RawDecl, mode: Mode) -> (r: Result<String, GenError>)
    ensures
        validate_spec(d) matches Ok(nv) ==> (r matches Ok(s) && s@ == fragment_text(
            nv.0,
            nv.1,
            mode,
        )),
        validate_spec(d) matches Err(e) ==> r == Err::<String, GenError>(e),
{
    match validate(d) {
        Ok(e) => Ok(synthesize(&e, mode)),
        Err(err) => Err(err),
    }
}

} // verus!
