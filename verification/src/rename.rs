//! Naming conventions: how the Lua-facing name of a Rust enum variant or
//! struct field is made from its identifier.
use vstd::prelude::*;
use vstd::string::StringExecFns;
use convert_case::{Case, Casing};
use crate::text::string_from_chars;
use vstd::utf8::is_ascii_chars;

verus! {

/// Rename conventions for enum variants.
#[derive(Clone, Copy, PartialEq, Eq, Structural, Debug)]
pub enum RenameAll {
    KebabCase,
    SnakeCase,
    ScreamingSnakeCase,
}

impl Default for RenameAll {
    fn default() -> (r: Self)
        ensures
            r == RenameAll::KebabCase,
    {
        RenameAll::KebabCase
    }
}

/// Parsed attributes for an enum.
#[derive(Debug)]
pub struct EnumAttrs {
    pub rename_all: RenameAll,
}

impl Default for EnumAttrs {
    fn default() -> (r: Self)
        ensures
            r.rename_all == RenameAll::KebabCase,
    {
        EnumAttrs { rename_all: RenameAll::KebabCase }
    }
}

/// Parsed attributes for a variant.
#[derive(Debug)]
pub struct VariantAttrs {
    pub rename: Option<String>,
}

impl Default for VariantAttrs {
    fn default() -> (r: Self)
        ensures
            r.rename is None,
    {
        VariantAttrs { rename: None }
    }
}

/// What `convert_case` makes of a text in kebab case.
pub uninterp spec fn kebab_case_text(s: Seq<char>) -> Seq<char>;

/// What `convert_case` makes of a text in snake case.
pub uninterp spec fn snake_case_text(s: Seq<char>) -> Seq<char>;

/// What `convert_case` makes of a text in constant case (`Case::Constant`).
pub uninterp spec fn constant_case_text(s: Seq<char>) -> Seq<char>;

/// Convert an identifier to kebab-case: `Casing::to_case` of `convert_case`
/// with `Case::Kebab`. The contract claims only that the result is a function
/// of the text (`kebab_case_text`).
#[verifier::external_body]
pub fn to_kebab_case(ident: &str) -> (r: String)
    ensures
        r@ == kebab_case_text(ident@),
{
    ident.to_case(Case::Kebab)
}

/// Convert an identifier to snake_case: `Casing::to_case` of `convert_case`
/// with `Case::Snake`. The contract claims only that the result is a
/// function of the text (`snake_case_text`).
#[verifier::external_body]
pub fn to_snake_case(ident: &str) -> (r: String)
    ensures
        r@ == snake_case_text(ident@),
{
    ident.to_case(Case::Snake)
}

/// Convert an identifier to SCREAMING_SNAKE_CASE: `Casing::to_case` of
/// `convert_case` with `Case::Constant` (words in capitals, separated by
/// underscores). The contract claims only that the result is a function of
/// the text (`constant_case_text`).
#[verifier::external_body]
pub fn to_screaming_snake_case(ident: &str) -> (r: String)
    ensures
        r@ == constant_case_text(ident@),
{
    ident.to_case(Case::Constant)
}

/// The name that `convention` gives the identifier `ident`.
pub open spec fn renamed(ident: Seq<char>, convention: RenameAll) -> Seq<char> {
    match convention {
        RenameAll::KebabCase => kebab_case_text(ident),
        RenameAll::SnakeCase => snake_case_text(ident),
        RenameAll::ScreamingSnakeCase => constant_case_text(ident),
    }
}

/// Apply rename convention to an identifier.
pub fn apply_rename(ident: &str, convention: RenameAll) -> (r: String)
    ensures
        r@ == renamed(ident@, convention),
{
    match convention {
        RenameAll::KebabCase => to_kebab_case(ident),
        RenameAll::SnakeCase => to_snake_case(ident),
        RenameAll::ScreamingSnakeCase => to_screaming_snake_case(ident),
    }
}

/// The convention that a `rename_all` value names.
pub open spec fn rename_all_text(s: Seq<char>) -> Option<RenameAll> {
    if s == "kebab-case"@ {
        Some(RenameAll::KebabCase)
    } else if s == "snake_case"@ {
        Some(RenameAll::SnakeCase)
    } else if s == "SCREAMING_SNAKE_CASE"@ {
        Some(RenameAll::ScreamingSnakeCase)
    } else {
        None
    }
}

/// The message for an unknown `rename_all` value.
pub open spec fn unknown_rename_all(s: Seq<char>) -> Seq<char> {
    "Unknown rename_all value: "@ + s
}

/// Read a `rename_all` value.
pub fn parse_rename_all(value: &str) -> (r: Result<RenameAll, String>)
    ensures
        match rename_all_text(value@) {
            Some(c) => r == Ok::<RenameAll, String>(c),
            None => r matches Err(m) && m@ == unknown_rename_all(value@),
        },
{
    let v = crate::text::chars_of(value);
    if crate::text::eq_lit(&v, "kebab-case") {
        Ok(RenameAll::KebabCase)
    } else if crate::text::eq_lit(&v, "snake_case") {
        Ok(RenameAll::SnakeCase)
    } else if crate::text::eq_lit(&v, "SCREAMING_SNAKE_CASE") {
        Ok(RenameAll::ScreamingSnakeCase)
    } else {
        let mut m = String::from_str("Unknown rename_all value: ");
        m.append(value);
        Err(m)
    }
}

impl EnumAttrs {
    /// The attributes that the `rename_all` values of an enum's `lua_enum`
    /// attributes give, in order: the last value wins; the first value that
    /// names no convention is an error.
    pub fn from_rename_all_values(values: &[String]) -> (r: Result<EnumAttrs, String>)
        ensures
            (forall|i: int| 0 <= i < values@.len() ==> rename_all_text(#[trigger] values@[i]@) is Some) ==> (
            match r {
                Ok(a) => a.rename_all == (if values@.len() == 0 {
                    RenameAll::KebabCase
                } else {
                    rename_all_text(values@.last()@).unwrap()
                }),
                Err(_) => false,
            }),
            forall|i: int|
                0 <= i < values@.len() && rename_all_text(values@[i]@) is None && (forall|j: int|
                    0 <= j < i ==> rename_all_text(#[trigger] values@[j]@) is Some) ==> (r matches Err(m)
                    && m@ == unknown_rename_all(#[trigger] values@[i]@)),
    {
        let mut result = EnumAttrs::default();
        let mut k: usize = 0;
        while k < values.len()
            invariant
                k <= values@.len(),
                forall|j: int| 0 <= j < k ==> rename_all_text(#[trigger] values@[j]@) is Some,
                result.rename_all == (if k == 0 {
                    RenameAll::KebabCase
                } else {
                    rename_all_text(values@[k - 1]@).unwrap()
                }),
            decreases values@.len() - k,
        {
            match parse_rename_all(values[k].as_str()) {
                Ok(c) => {
                    result.rename_all = c;
                },
                Err(m) => {
                    return Err(m);
                },
            }
            k = k + 1;
        }
        Ok(result)
    }
}

impl VariantAttrs {
    /// The attributes that the `rename` values of a variant's `lua_enum`
    /// attributes give, in order: the last value wins.
    pub fn from_rename_values(values: Vec<String>) -> (r: VariantAttrs)
        ensures
            values@.len() == 0 ==> r.rename is None,
            values@.len() > 0 ==> r.rename == Some(values@.last()),
    {
        let mut values = values;
        let last = values.pop();
        VariantAttrs { rename: last }
    }
}

/// What `char::to_uppercase` yields for `c`.
pub uninterp spec fn upper_mapping(c: char) -> Seq<char>;

/// The characters that `char::to_uppercase` yields for `c`. The contract
/// claims that they are a function of `c` (`upper_mapping`), and what the
/// std documentation gives for ASCII: a lower-case letter maps to its
/// capital, any other ASCII character to itself.
#[verifier::external_body]
fn uppercase_chars(c: char) -> (r: Vec<char>)
    ensures
        r@ == upper_mapping(c),
        'a' <= c <= 'z' ==> r@ == seq![((c as u32) - 32) as char],
        (c as u32) < 128 && !('a' <= c <= 'z') ==> r@ == seq![c],
{
    c.to_uppercase().collect()
}

/// `s` in PascalCase from the position after a word start (`at_start`) or
/// inside a word: every `_` dropped, the first character of each word mapped
/// to upper case, the others kept.
pub open spec fn pascal_from(s: Seq<char>, at_start: bool) -> Seq<char>
    decreases s.len(),
{
    if s.len() == 0 {
        Seq::empty()
    } else if s[0] == '_' {
        pascal_from(s.drop_first(), true)
    } else if at_start {
        upper_mapping(s[0]) + pascal_from(s.drop_first(), false)
    } else {
        seq![s[0]] + pascal_from(s.drop_first(), false)
    }
}

/// A snake_case text in PascalCase: the words between `_` joined, each
/// with its first character in upper case.
pub open spec fn pascal_case(s: Seq<char>) -> Seq<char> {
    pascal_from(s, true)
}

/// The upper case of an ASCII character: a small letter becomes its
/// capital, anything else stays.
pub open spec fn ascii_upper(c: char) -> char {
    if 'a' <= c <= 'z' { ((c as u32) - 32) as char } else { c }
}

/// `pascal_from` for ASCII text, where the upper case of a character is
/// `ascii_upper`.
pub open spec fn pascal_ascii_from(s: Seq<char>, at_start: bool) -> Seq<char>
    decreases s.len(),
{
    if s.len() == 0 {
        Seq::empty()
    } else if s[0] == '_' {
        pascal_ascii_from(s.drop_first(), true)
    } else if at_start {
        seq![ascii_upper(s[0])] + pascal_ascii_from(s.drop_first(), false)
    } else {
        seq![s[0]] + pascal_ascii_from(s.drop_first(), false)
    }
}

/// An ASCII snake_case text in PascalCase.
pub open spec fn pascal_ascii(s: Seq<char>) -> Seq<char> {
    pascal_ascii_from(s, true)
}

/// Convert snake_case to PascalCase; for ASCII text, `pascal_ascii`.
pub fn to_pascal_case(s: &str) -> (r: String)
    ensures
        r@ == pascal_case(s@),
        is_ascii_chars(s@) ==> r@ == pascal_ascii(s@),
{
    let cs = crate::text::chars_of(s);
    let mut acc: Vec<char> = Vec::new();
    let mut start = true;
    let mut i: usize = 0;
    assert(cs@.skip(0) =~= cs@);
    assert(acc@ + pascal_from(cs@.skip(0), true) =~= pascal_from(cs@.skip(0), true));
    while i < cs.len()
        invariant
            i <= cs@.len(),
            cs@ == s@,
            acc@ + pascal_from(cs@.skip(i as int), start) == pascal_case(s@),
            is_ascii_chars(s@) ==> acc@ + pascal_ascii_from(cs@.skip(i as int), start) == pascal_ascii(s@),
        decreases cs@.len() - i,
    {
        let c = cs[i];
        assert(cs@.skip(i as int)[0] == c);
        let ghost before = acc@;
        let ghost was = start;
        assert(cs@.skip(i as int).drop_first() =~= cs@.skip(i + 1));
        if c == '_' {
            start = true;
        } else if start {
            let up = uppercase_chars(c);
            let mut k: usize = 0;
            while k < up.len()
                invariant
                    k <= up@.len(),
                    acc@ == before + up@.take(k as int),
                decreases up@.len() - k,
            {
                acc.push(up[k]);
                assert(acc@ =~= before + up@.take(k + 1));
                k = k + 1;
            }
            assert(up@.take(up@.len() as int) =~= up@);
            assert(acc@ + pascal_from(cs@.skip(i + 1), false) =~= before + (upper_mapping(c)
                + pascal_from(cs@.skip(i + 1), false)));
            proof {
                if is_ascii_chars(s@) {
                    assert('\0' <= s@[i as int] <= '\u{7f}');
                    assert(up@ =~= seq![ascii_upper(c)]);
                    assert(acc@ + pascal_ascii_from(cs@.skip(i + 1), false) =~= before + (seq![ascii_upper(c)]
                        + pascal_ascii_from(cs@.skip(i + 1), false)));
                }
            }
            start = false;
        } else {
            acc.push(c);
            assert(acc@ + pascal_from(cs@.skip(i + 1), false) =~= before + (seq![c] + pascal_from(
                cs@.skip(i + 1),
                false,
            )));
            assert(acc@ + pascal_ascii_from(cs@.skip(i + 1), false) =~= before + (seq![c] + pascal_ascii_from(
                cs@.skip(i + 1),
                false,
            )));
        }
        i = i + 1;
    }
    assert(acc@ + pascal_from(cs@.skip(i as int), start) =~= acc@);
    assert(acc@ + pascal_ascii_from(cs@.skip(i as int), start) =~= acc@);
    string_from_chars(&acc)
}

/// The name of the flag enum made for a flags struct: a trailing `Flags`
/// becomes `Flag`, else a trailing `s` becomes `Flag`, else `Flag` is added.
pub open spec fn flag_enum_name(name: Seq<char>) -> Seq<char> {
    if name.len() >= 5 && name.subrange(name.len() - 5, name.len() as int) == "Flags"@ {
        name.subrange(0, name.len() - 5) + "Flag"@
    } else if name.len() >= 1 && name.last() == 's' {
        name.drop_last() + "Flag"@
    } else {
        name + "Flag"@
    }
}

/// Generate the enum name from the struct name.
pub fn generate_enum_name(struct_name: &str) -> (r: String)
    ensures
        r@ == flag_enum_name(struct_name@),
{
    let cs = crate::text::chars_of(struct_name);
    let n = cs.len();
    let stem = if n >= 5 && crate::text::eq_lit(&crate::text::slice_chars(&cs, n - 5, n), "Flags") {
        crate::text::slice_chars(&cs, 0, n - 5)
    } else if n >= 1 && cs[n - 1] == 's' {
        crate::text::slice_chars(&cs, 0, n - 1)
    } else {
        crate::text::slice_chars(&cs, 0, n)
    };
    proof {
        assert(cs@.subrange(0, n as int) =~= cs@);
        assert(cs@.subrange(0, n - 1) =~= cs@.drop_last());
    }
    let mut m = string_from_chars(&stem);
    m.append("Flag");
    m
}

} // verus!
