//! The decisions of the derive macros, made on the names and type texts of a
//! type's items: how a field is read from a Lua table, the Lua name of a
//! field or a variant, the flag enum of a flags struct.
use vstd::prelude::*;
use vstd::string::StringExecFns;
use vstd::utf8::is_ascii_chars;
use crate::rename::{apply_rename, generate_enum_name, flag_enum_name, pascal_case, renamed, to_pascal_case, RenameAll};
use crate::text::{chars_of, eq_lit, string_from_chars};

verus! {

/// How a field is read from a Lua table.
#[derive(PartialEq, Eq, Structural, Clone, Copy, Debug)]
pub enum ExtractKind {
    String,
    Bool,
    Int,
    Float,
    Color,
    Nested,
    Vec,
    Skip,
}

/// `pat` occurs in `s`.
pub open spec fn contains_text(s: Seq<char>, pat: Seq<char>) -> bool {
    exists|i: int| 0 <= i <= s.len() - pat.len() && #[trigger] s.subrange(i, i + pat.len()) == pat
}

/// Whether `pat` occurs in `s`.
pub fn contains_chars(s: &[char], pat: &str) -> (r: bool)
    ensures
        r == contains_text(s@, pat@),
{
    let p = chars_of(pat);
    if p.len() > s.len() {
        return false;
    }
    let mut i: usize = 0;
    while i <= s.len() - p.len()
        invariant
            p@ == pat@,
            p@.len() <= s@.len(),
            i <= s@.len() - p@.len() + 1,
            forall|k: int| 0 <= k < i ==> #[trigger] s@.subrange(k, k + p@.len()) != p@,
        decreases s@.len() - i,
    {
        let mut j: usize = 0;
        let mut same = true;
        while j < p.len()
            invariant
                i + p@.len() <= s@.len(),
                s@.len() == s.len(),
                p@.len() == p.len(),
                j <= p@.len(),
                same == (forall|m: int| 0 <= m < j ==> s@[i + m] == p@[m]),
            decreases p@.len() - j,
        {
            if s[i + j] != p[j] {
                same = false;
            }
            j = j + 1;
        }
        if same {
            assert(s@.subrange(i as int, i + p@.len()) =~= p@);
            return true;
        }
        assert(s@.subrange(i as int, i + p@.len())[j as int - 1] == s@[i + j - 1] || !same);
        assert(s@.subrange(i as int, i + p@.len()) != p@) by {
            let m = choose|m: int| 0 <= m < p@.len() && s@[i + m] != p@[m];
            assert(s@.subrange(i as int, i + p@.len())[m] == s@[i + m]);
        }
        i = i + 1;
    }
    false
}

/// `s` starts with `pat`.
pub open spec fn starts_with_text(s: Seq<char>, pat: Seq<char>) -> bool {
    pat.len() <= s.len() && s.take(pat.len() as int) == pat
}

fn starts_with_chars(s: &[char], pat: &str) -> (r: bool)
    ensures
        r == starts_with_text(s@, pat@),
{
    let p = chars_of(pat);
    if p.len() > s.len() {
        return false;
    }
    let head = crate::text::slice_chars(s, 0, p.len());
    let r = eq_lit(&head, pat);
    assert(head@ =~= s@.take(p@.len() as int));
    r
}

/// The type text names an integer type (one of the integer type names
/// occurs in it).
pub open spec fn int_type_text(s: Seq<char>, sized: bool) -> bool {
    ||| contains_text(s, "i8"@)
    ||| contains_text(s, "i16"@)
    ||| contains_text(s, "i32"@)
    ||| contains_text(s, "i64"@)
    ||| contains_text(s, "u8"@)
    ||| contains_text(s, "u16"@)
    ||| contains_text(s, "u32"@)
    ||| contains_text(s, "u64"@)
    ||| (sized && contains_text(s, "usize"@))
    ||| (sized && contains_text(s, "isize"@))
}

fn int_type(s: &[char], sized: bool) -> (r: bool)
    ensures
        r == int_type_text(s@, sized),
{
    contains_chars(s, "i8") || contains_chars(s, "i16") || contains_chars(s, "i32")
        || contains_chars(s, "i64") || contains_chars(s, "u8") || contains_chars(s, "u16")
        || contains_chars(s, "u32") || contains_chars(s, "u64")
        || (sized && contains_chars(s, "usize")) || (sized && contains_chars(s, "isize"))
}

/// `s` without its spaces.
pub open spec fn without_spaces(s: Seq<char>) -> Seq<char>
    decreases s.len(),
{
    if s.len() == 0 {
        s
    } else if s.last() == ' ' {
        without_spaces(s.drop_last())
    } else {
        without_spaces(s.drop_last()).push(s.last())
    }
}

fn compact(s: &str) -> (r: Vec<char>)
    ensures
        r@ == without_spaces(s@),
{
    let cs = chars_of(s);
    let mut r: Vec<char> = Vec::new();
    for i in 0..cs.len()
        invariant
            cs@ == s@,
            r@ == without_spaces(s@.take(i as int)),
    {
        assert(s@.take(i + 1).drop_last() =~= s@.take(i as int));
        if cs[i] != ' ' {
            r.push(cs[i]);
        }
    }
    assert(s@.take(cs@.len() as int) =~= s@);
    r
}

/// The text inside `Option<...>`: without its first seven characters and
/// its last one.
pub open spec fn option_inner(s: Seq<char>) -> Seq<char> {
    s.subrange(7, s.len() - 1)
}

/// How a field of the type with text `ty` (as its tokens print) is read when
/// no attribute says: by the type text without spaces.
pub open spec fn inferred_kind(ty: Seq<char>) -> ExtractKind {
    let t = without_spaces(ty);
    if t == "bool"@ {
        ExtractKind::Bool
    } else if t == "String"@ || t == "Option<String>"@ {
        ExtractKind::String
    } else if int_type_text(t, true) {
        ExtractKind::Int
    } else if contains_text(t, "f32"@) || contains_text(t, "f64"@) {
        ExtractKind::Float
    } else if contains_text(t, "Color"@) {
        ExtractKind::Color
    } else if starts_with_text(t, "Vec<"@) {
        ExtractKind::Vec
    } else if starts_with_text(t, "Option<"@) {
        let inner = option_inner(t);
        if inner == "bool"@ {
            ExtractKind::Bool
        } else if inner == "String"@ {
            ExtractKind::String
        } else if int_type_text(inner, false) {
            ExtractKind::Int
        } else if contains_text(inner, "f32"@) || contains_text(inner, "f64"@) {
            ExtractKind::Float
        } else if contains_text(inner, "Color"@) {
            ExtractKind::Color
        } else {
            ExtractKind::Nested
        }
    } else {
        ExtractKind::Nested
    }
}

/// Reading the inner text of an `Option<...>` type text would slice through
/// a character or before its start (a panic): the text after removing its
/// spaces starts with `Option<`, and ends before its eighth character or
/// with a character that is not ASCII.
pub open spec fn inferred_kind_panics(ty: Seq<char>) -> bool {
    let t = without_spaces(ty);
    &&& !(t == "bool"@ || t == "String"@ || t == "Option<String>"@)
    &&& !int_type_text(t, true)
    &&& !(contains_text(t, "f32"@) || contains_text(t, "f64"@) || contains_text(t, "Color"@))
    &&& !starts_with_text(t, "Vec<"@)
    &&& starts_with_text(t, "Option<"@)
    &&& (t.len() < 8 || t.last() as u32 >= 128)
}

/// How a field of the type with text `ty` is read when no attribute says.
pub fn infer_kind(ty: &str) -> (r: ExtractKind)
    requires
        !inferred_kind_panics(ty@),
    ensures
        r == inferred_kind(ty@),
{
    let t = compact(ty);
    if eq_lit(&t, "bool") {
        ExtractKind::Bool
    } else if eq_lit(&t, "String") || eq_lit(&t, "Option<String>") {
        ExtractKind::String
    } else if int_type(&t, true) {
        ExtractKind::Int
    } else if contains_chars(&t, "f32") || contains_chars(&t, "f64") {
        ExtractKind::Float
    } else if contains_chars(&t, "Color") {
        ExtractKind::Color
    } else if starts_with_chars(&t, "Vec<") {
        ExtractKind::Vec
    } else if starts_with_chars(&t, "Option<") {
        let inner = crate::text::slice_chars(&t, 7, t.len() - 1);
        if eq_lit(&inner, "bool") {
            ExtractKind::Bool
        } else if eq_lit(&inner, "String") {
            ExtractKind::String
        } else if int_type(&inner, false) {
            ExtractKind::Int
        } else if contains_chars(&inner, "f32") || contains_chars(&inner, "f64") {
            ExtractKind::Float
        } else if contains_chars(&inner, "Color") {
            ExtractKind::Color
        } else {
            ExtractKind::Nested
        }
    } else {
        ExtractKind::Nested
    }
}

/// Whether the type text (as its tokens print) is an `Option`.
pub fn is_option_type(ty: &str) -> (r: bool)
    ensures
        r == starts_with_text(without_spaces(ty@), "Option<"@),
{
    starts_with_chars(&compact(ty), "Option<")
}

/// Whether `char::is_uppercase` holds of a character.
pub uninterp spec fn is_upper(c: char) -> bool;

/// The first character that `char::to_lowercase` yields.
pub uninterp spec fn lower_first(c: char) -> char;

/// `char::is_uppercase`. The contract claims that the answer is a function
/// of the character (`is_upper`), and what the std documentation gives for
/// ASCII: exactly the capital letters are upper case.
#[verifier::external_body]
fn char_is_uppercase(c: char) -> (r: bool)
    ensures
        r == is_upper(c),
        (c as u32) < 128 ==> (r <==> 'A' <= c <= 'Z'),
{
    c.is_uppercase()
}

/// The first character of `char::to_lowercase`. The contract claims that it
/// is a function of the character (`lower_first`), and what the std
/// documentation gives for ASCII: a capital maps to its small letter.
#[verifier::external_body]
fn first_lowercase(c: char) -> (r: char)
    ensures
        r == lower_first(c),
        'A' <= c <= 'Z' ==> r == ((c as u32) + 32) as char,
{
    c.to_lowercase().next().unwrap()
}

/// The kebab-case Lua name of a field: before every upper-case character but
/// the first a `-`, and the character in lower case; every `_` a `-`.
pub open spec fn kebab_name(s: Seq<char>) -> Seq<char>
    decreases s.len(),
{
    if s.len() == 0 {
        s
    } else {
        let rest = kebab_name(s.drop_last());
        let c = s.last();
        if is_upper(c) {
            if s.len() > 1 { rest.push('-').push(lower_first(c)) } else { rest.push(lower_first(c)) }
        } else if c == '_' {
            rest.push('-')
        } else {
            rest.push(c)
        }
    }
}

/// The kebab-case name of an ASCII text: before every capital letter but
/// the first a `-`, and the letter in lower case; every `_` a `-`.
pub open spec fn kebab_ascii(s: Seq<char>) -> Seq<char>
    decreases s.len(),
{
    if s.len() == 0 {
        s
    } else {
        let rest = kebab_ascii(s.drop_last());
        let c = s.last();
        if 'A' <= c <= 'Z' {
            let l = ((c as u32) + 32) as char;
            if s.len() > 1 { rest.push('-').push(l) } else { rest.push(l) }
        } else if c == '_' {
            rest.push('-')
        } else {
            rest.push(c)
        }
    }
}

/// The kebab-case Lua name of a field; for an ASCII name, `kebab_ascii`.
pub fn to_kebab_case(s: &str) -> (r: String)
    ensures
        r@ == kebab_name(s@),
        is_ascii_chars(s@) ==> r@ == kebab_ascii(s@),
{
    let cs = chars_of(s);
    let mut out: Vec<char> = Vec::new();
    for i in 0..cs.len()
        invariant
            cs@ == s@,
            out@ == kebab_name(s@.take(i as int)),
            is_ascii_chars(s@) ==> out@ == kebab_ascii(s@.take(i as int)),
    {
        assert(s@.take(i + 1).drop_last() =~= s@.take(i as int));
        let c = cs[i];
        assert(s@.take(i + 1).last() == c);
        if char_is_uppercase(c) {
            if i > 0 {
                out.push('-');
            }
            out.push(first_lowercase(c));
        } else if c == '_' {
            out.push('-');
        } else {
            out.push(c);
        }
    }
    assert(s@.take(cs@.len() as int) =~= s@);
    string_from_chars(&out)
}

/// A meta item of a `from_lua` field attribute: its name, and the text of
/// its literal value when it has one.
pub struct FieldMeta {
    pub path: String,
    pub value: Option<String>,
}

/// The kind that a meta item names, if it names one.
pub open spec fn meta_kind(path: Seq<char>) -> Option<ExtractKind> {
    if path == "skip"@ {
        Some(ExtractKind::Skip)
    } else if path == "string"@ {
        Some(ExtractKind::String)
    } else if path == "bool"@ {
        Some(ExtractKind::Bool)
    } else if path == "int"@ {
        Some(ExtractKind::Int)
    } else if path == "float"@ {
        Some(ExtractKind::Float)
    } else if path == "color"@ {
        Some(ExtractKind::Color)
    } else if path == "nested"@ {
        Some(ExtractKind::Nested)
    } else if path == "vec"@ {
        Some(ExtractKind::Vec)
    } else {
        None
    }
}

fn meta_kind_of(path: &str) -> (r: Option<ExtractKind>)
    ensures
        r == meta_kind(path@),
{
    let p = chars_of(path);
    if eq_lit(&p, "skip") {
        Some(ExtractKind::Skip)
    } else if eq_lit(&p, "string") {
        Some(ExtractKind::String)
    } else if eq_lit(&p, "bool") {
        Some(ExtractKind::Bool)
    } else if eq_lit(&p, "int") {
        Some(ExtractKind::Int)
    } else if eq_lit(&p, "float") {
        Some(ExtractKind::Float)
    } else if eq_lit(&p, "color") {
        Some(ExtractKind::Color)
    } else if eq_lit(&p, "nested") {
        Some(ExtractKind::Nested)
    } else if eq_lit(&p, "vec") {
        Some(ExtractKind::Vec)
    } else {
        None
    }
}

/// The kind that the meta items of a field's attributes give, in order: the
/// last one that names a kind.
pub open spec fn attr_kind(metas: Seq<FieldMeta>) -> Option<ExtractKind>
    decreases metas.len(),
{
    if metas.len() == 0 {
        None
    } else {
        match meta_kind(metas.last().path@) {
            Some(k) => Some(k),
            None => attr_kind(metas.drop_last()),
        }
    }
}

/// The Lua name that the meta items give: the value of the last `rename`
/// with a value, else the kebab-case name of the field.
pub open spec fn attr_name(field: Seq<char>, metas: Seq<FieldMeta>) -> Seq<char>
    decreases metas.len(),
{
    if metas.len() == 0 {
        kebab_name(field)
    } else {
        let m = metas.last();
        if m.path@ == "rename"@ && m.value is Some {
            m.value.unwrap()@
        } else {
            attr_name(field, metas.drop_last())
        }
    }
}

/// How a field is read and under which Lua name, from its name, the text of
/// its type, the meta items of its `from_lua` attributes (those read before
/// one that failed to parse) and whether its type has a first generic type
/// argument: the kind that the attributes name, else the inferred one; and
/// whether the item type of a `Vec` is known, which it is when the kind was
/// inferred as `Vec` from a type with a generic argument.
pub fn parse_field_attrs(field: &str, ty: &str, metas: &[FieldMeta], has_item_type: bool) -> (r: (ExtractKind, String, bool))
    requires
        attr_kind(metas@) is None ==> !inferred_kind_panics(ty@),
    ensures
        r.0 == match attr_kind(metas@) {
            Some(k) => k,
            None => inferred_kind(ty@),
        },
        r.1@ == attr_name(field@, metas@),
        r.2 == (attr_kind(metas@) is None && inferred_kind(ty@) == ExtractKind::Vec && has_item_type),
{
    let mut kind: Option<ExtractKind> = None;
    let mut lua_name = to_kebab_case(field);
    for i in 0..metas.len()
        invariant
            kind == attr_kind(metas@.take(i as int)),
            lua_name@ == attr_name(field@, metas@.take(i as int)),
    {
        assert(metas@.take(i + 1).drop_last() =~= metas@.take(i as int));
        let m = &metas[i];
        if let Some(k) = meta_kind_of(m.path.as_str()) {
            kind = Some(k);
        }
        let p = chars_of(m.path.as_str());
        if eq_lit(&p, "rename") {
            if let Some(v) = &m.value {
                lua_name = v.clone();
            }
        }
    }
    assert(metas@.take(metas@.len() as int) =~= metas@);
    match kind {
        Some(k) => (k, lua_name, false),
        None => {
            let k = infer_kind(ty);
            let item_known = k == ExtractKind::Vec && has_item_type;
            (k, lua_name, item_known)
        },
    }
}

/// Whether inferring a field's kind would panic: its attributes name no
/// kind, and reading the inner text of its `Option` type would slice out of
/// bounds or through a character.
pub fn kind_inference_panics(ty: &str, metas: &[FieldMeta]) -> (r: bool)
    ensures
        r == (attr_kind(metas@) is None && inferred_kind_panics(ty@)),
{
    let mut named = false;
    for i in 0..metas.len()
        invariant
            named == (attr_kind(metas@.take(i as int)) is Some),
    {
        assert(metas@.take(i + 1).drop_last() =~= metas@.take(i as int));
        if meta_kind_of(metas[i].path.as_str()).is_some() {
            named = true;
        }
    }
    assert(metas@.take(metas@.len() as int) =~= metas@);
    if named {
        return false;
    }
    let t = compact(ty);
    if eq_lit(&t, "bool") || eq_lit(&t, "String") || eq_lit(&t, "Option<String>") {
        return false;
    }
    if int_type(&t, true) || contains_chars(&t, "f32") || contains_chars(&t, "f64") || contains_chars(&t, "Color") {
        return false;
    }
    if starts_with_chars(&t, "Vec<") || !starts_with_chars(&t, "Option<") {
        return false;
    }
    t.len() < 8 || (t[t.len() - 1] as u32) >= 128
}

/// A field of a struct given to the table-reading derive: its name, the
/// text of its type as its tokens print, the meta items of its `from_lua`
/// attributes (those read before one that failed to parse), and whether its
/// type is a path whose last segment has a first generic type argument.
pub struct TableField {
    pub name: String,
    pub ty: String,
    pub metas: Vec<FieldMeta>,
    pub has_item_type: bool,
}

/// How the derived code reads one field: the field, its Lua key, its kind,
/// and whether its type is an `Option`.
pub struct FieldPlan {
    pub name: String,
    pub lua_name: String,
    pub kind: ExtractKind,
    pub is_option: bool,
}

impl View for FieldPlan {
    type V = (Seq<char>, Seq<char>, ExtractKind, bool);

    open spec fn view(&self) -> (Seq<char>, Seq<char>, ExtractKind, bool) {
        (self.name@, self.lua_name@, self.kind, self.is_option)
    }
}

/// Why a struct cannot be read from a table.
#[derive(PartialEq, Eq, Structural, Clone, Copy, Debug)]
pub enum FromLuaError {
    /// "FromLuaTable only supports structs with named fields"
    NotNamed,
    /// "FromLuaTable only supports structs"
    NotStruct,
    /// The field at this index is read as a `Vec` whose item type is unknown.
    MissingItemType(usize),
}

/// The kind by which a field is read.
pub open spec fn field_kind(f: TableField) -> ExtractKind {
    match attr_kind(f.metas@) {
        Some(k) => k,
        None => inferred_kind(f.ty@),
    }
}

/// Inferring the kind of the field would panic.
pub open spec fn field_kind_panics(f: TableField) -> bool {
    attr_kind(f.metas@) is None && inferred_kind_panics(f.ty@)
}

/// The field is read as a `Vec` whose item type is unknown: its kind was
/// named by an attribute, or its type has no generic argument.
pub open spec fn missing_item_type(f: TableField) -> bool {
    field_kind(f) == ExtractKind::Vec && !(attr_kind(f.metas@) is None && f.has_item_type)
}

/// How the fields that are not skipped are read, in order.
pub open spec fn planned_fields(fields: Seq<TableField>) -> Seq<(Seq<char>, Seq<char>, ExtractKind, bool)>
    decreases fields.len(),
{
    if fields.len() == 0 {
        Seq::empty()
    } else {
        let rest = planned_fields(fields.drop_last());
        let f = fields.last();
        if field_kind(f) == ExtractKind::Skip {
            rest
        } else {
            rest.push((f.name@, attr_name(f.name@, f.metas@), field_kind(f), starts_with_text(without_spaces(f.ty@), "Option<"@)))
        }
    }
}

/// How a struct is read from a Lua table: per field that is not skipped, in
/// order, its Lua key and kind; refused for an item that is not a struct
/// with named fields, or at the first field read as a `Vec` whose item type
/// is unknown.
pub fn plan_from_lua_table(shape: ItemShape, fields: &[TableField]) -> (r: Result<Vec<FieldPlan>, FromLuaError>)
    requires
        shape == ItemShape::NamedStruct ==> forall|i: int| 0 <= i < fields@.len() ==> !field_kind_panics(#[trigger] fields@[i]),
    ensures
        shape == ItemShape::NotStruct ==> r == Err::<Vec<FieldPlan>, _>(FromLuaError::NotStruct),
        shape == ItemShape::OtherStruct ==> r == Err::<Vec<FieldPlan>, _>(FromLuaError::NotNamed),
        shape == ItemShape::NamedStruct ==> match r {
            Ok(p) => {
                &&& forall|i: int| 0 <= i < fields@.len() ==> !missing_item_type(#[trigger] fields@[i])
                &&& p@.map_values(|x: FieldPlan| x@) == planned_fields(fields@)
            },
            Err(FromLuaError::MissingItemType(k)) => 0 <= k < fields@.len() && missing_item_type(fields@[k as int])
                && forall|j: int| 0 <= j < k ==> !missing_item_type(#[trigger] fields@[j]),
            Err(_) => false,
        },
{
    match shape {
        ItemShape::NotStruct => return Err(FromLuaError::NotStruct),
        ItemShape::OtherStruct => return Err(FromLuaError::NotNamed),
        ItemShape::NamedStruct => {},
    }
    let mut plans: Vec<FieldPlan> = Vec::new();
    for i in 0..fields.len()
        invariant
            shape == ItemShape::NamedStruct,
            forall|j: int| 0 <= j < fields@.len() ==> !field_kind_panics(#[trigger] fields@[j]),
            forall|j: int| 0 <= j < i ==> !missing_item_type(#[trigger] fields@[j]),
            plans@.map_values(|x: FieldPlan| x@) == planned_fields(fields@.take(i as int)),
    {
        let f = &fields[i];
        assert(!field_kind_panics(fields@[i as int]));
        assert(fields@.take(i + 1).drop_last() =~= fields@.take(i as int));
        assert(fields@.take(i + 1).last() == fields@[i as int]);
        let (kind, lua_name, item_known) = parse_field_attrs(f.name.as_str(), f.ty.as_str(), f.metas.as_slice(), f.has_item_type);
        if kind != ExtractKind::Skip {
            if kind == ExtractKind::Vec && !item_known {
                return Err(FromLuaError::MissingItemType(i));
            }
            let is_option = is_option_type(f.ty.as_str());
            let ghost before = plans@;
            plans.push(FieldPlan { name: f.name.clone(), lua_name, kind, is_option });
            assert(plans@.map_values(|x: FieldPlan| x@) =~= before.map_values(|x: FieldPlan| x@).push(plans@.last()@));
        }
    }
    assert(fields@.take(fields@.len() as int) =~= fields@);
    Ok(plans)
}

/// A field of a flags struct: its name and whether its type is `bool`.
pub struct FlagField {
    pub name: String,
    pub is_bool: bool,
}

/// The shape of the item that a derive is applied to.
#[derive(PartialEq, Eq, Structural, Clone, Copy, Debug)]
pub enum ItemShape {
    NamedStruct,
    OtherStruct,
    NotStruct,
}

/// The flag enum made for a flags struct: its name, and per field the field
/// name and its variant name.
pub struct DirtyFlagsPlan {
    pub enum_name: String,
    pub variants: Vec<(String, String)>,
}

/// Why a flags struct cannot have a flag enum.
#[derive(PartialEq, Eq, Structural, Clone, Copy, Debug)]
pub enum DirtyFlagsError {
    /// "DirtyFlags only supports structs with named fields"
    NotNamed,
    /// "DirtyFlags can only be applied to structs"
    NotStruct,
    /// "DirtyFlags struct fields must be of type bool", at this field.
    NotBool(usize),
}

/// The flag enum of a flags struct: named after the struct
/// (`flag_enum_name`), with one variant per field, in order, the field's
/// name in PascalCase; refused for an item that is not a struct with named
/// fields, or at the first field that is not a `bool`.
pub fn plan_dirty_flags(struct_name: &str, shape: ItemShape, fields: &[FlagField]) -> (r: Result<DirtyFlagsPlan, DirtyFlagsError>)
    ensures
        shape == ItemShape::NotStruct ==> r == Err::<DirtyFlagsPlan, _>(DirtyFlagsError::NotStruct),
        shape == ItemShape::OtherStruct ==> r == Err::<DirtyFlagsPlan, _>(DirtyFlagsError::NotNamed),
        shape == ItemShape::NamedStruct ==> match r {
            Ok(p) => {
                &&& forall|i: int| 0 <= i < fields@.len() ==> (#[trigger] fields@[i]).is_bool
                &&& p.enum_name@ == flag_enum_name(struct_name@)
                &&& p.variants@.len() == fields@.len()
                &&& forall|i: int| 0 <= i < fields@.len() ==> (#[trigger] p.variants@[i]).0 == fields@[i].name
                    && p.variants@[i].1@ == pascal_case(fields@[i].name@)
            },
            Err(DirtyFlagsError::NotBool(k)) => 0 <= k < fields@.len() && !fields@[k as int].is_bool
                && forall|j: int| 0 <= j < k ==> (#[trigger] fields@[j]).is_bool,
            Err(_) => false,
        },
{
    match shape {
        ItemShape::NotStruct => return Err(DirtyFlagsError::NotStruct),
        ItemShape::OtherStruct => return Err(DirtyFlagsError::NotNamed),
        ItemShape::NamedStruct => {},
    }
    let mut variants: Vec<(String, String)> = Vec::new();
    for i in 0..fields.len()
        invariant
            shape == ItemShape::NamedStruct,
            variants@.len() == i,
            forall|j: int| 0 <= j < i ==> (#[trigger] fields@[j]).is_bool,
            forall|j: int| 0 <= j < i ==> (#[trigger] variants@[j]).0 == fields@[j].name
                && variants@[j].1@ == pascal_case(fields@[j].name@),
    {
        if !fields[i].is_bool {
            return Err(DirtyFlagsError::NotBool(i));
        }
        let name = fields[i].name.clone();
        let variant = to_pascal_case(fields[i].name.as_str());
        variants.push((name, variant));
    }
    Ok(DirtyFlagsPlan { enum_name: generate_enum_name(struct_name), variants })
}

/// A variant of an enum given to the Lua enum derive: its name, whether it
/// has no fields, whether its `lua_enum` attributes parse, and the `rename`
/// that they give.
pub struct EnumVariant {
    pub ident: String,
    pub unit: bool,
    pub attrs_parse: bool,
    pub rename: Option<String>,
}

/// A variant that the derive accepts: without fields, with attributes that
/// parse.
pub open spec fn variant_accepted(v: EnumVariant) -> bool {
    v.unit && v.attrs_parse
}

/// The Lua names of an enum's variants, and the message for an unknown name.
pub struct LuaEnumPlan {
    pub names: Vec<String>,
    pub error_message: String,
}

/// Why an item cannot be a Lua enum.
#[derive(PartialEq, Eq, Structural, Clone, Copy, Debug)]
pub enum LuaEnumError {
    /// "LuaEnum can only be applied to enums"
    NotEnum,
    /// "LuaEnum only supports unit variants (no fields)", at this variant.
    NotUnit(usize),
    /// The attributes of this variant do not parse.
    BadAttributes(usize),
}

/// The Lua name of a variant: its `rename`, else its name under the enum's
/// convention.
pub open spec fn variant_name(v: EnumVariant, convention: RenameAll) -> Seq<char> {
    match v.rename {
        Some(n) => n@,
        None => renamed(v.ident@, convention),
    }
}

/// The names joined with `, `.
pub open spec fn joined_names(names: Seq<Seq<char>>) -> Seq<char>
    decreases names.len(),
{
    if names.len() == 0 {
        Seq::empty()
    } else if names.len() == 1 {
        names[0]
    } else {
        joined_names(names.drop_last()) + ", "@ + names.last()
    }
}

/// The Lua names of an enum's unit variants, in order, and the message
/// `Expected one of: ` followed by them, joined with `, `; refused for an
/// item that is not an enum, or at the first variant that has fields or
/// attributes that do not parse.
pub fn plan_lua_enum(is_enum: bool, variants: &[EnumVariant], convention: RenameAll) -> (r: Result<LuaEnumPlan, LuaEnumError>)
    ensures
        !is_enum ==> r == Err::<LuaEnumPlan, _>(LuaEnumError::NotEnum),
        is_enum ==> match r {
            Ok(p) => {
                &&& forall|i: int| 0 <= i < variants@.len() ==> variant_accepted(#[trigger] variants@[i])
                &&& p.names@.len() == variants@.len()
                &&& forall|i: int| 0 <= i < variants@.len() ==> (#[trigger] p.names@[i])@ == variant_name(variants@[i], convention)
                &&& p.error_message@ == "Expected one of: "@ + joined_names(p.names@.map_values(|n: String| n@))
            },
            Err(LuaEnumError::NotUnit(k)) => 0 <= k < variants@.len() && !variants@[k as int].unit
                && forall|j: int| 0 <= j < k ==> variant_accepted(#[trigger] variants@[j]),
            Err(LuaEnumError::BadAttributes(k)) => 0 <= k < variants@.len() && variants@[k as int].unit
                && !variants@[k as int].attrs_parse
                && forall|j: int| 0 <= j < k ==> variant_accepted(#[trigger] variants@[j]),
            Err(_) => false,
        },
{
    if !is_enum {
        return Err(LuaEnumError::NotEnum);
    }
    let mut names: Vec<String> = Vec::new();
    let mut list: Vec<char> = Vec::new();
    for i in 0..variants.len()
        invariant
            is_enum,
            names@.len() == i,
            forall|j: int| 0 <= j < i ==> variant_accepted(#[trigger] variants@[j]),
            forall|j: int| 0 <= j < i ==> (#[trigger] names@[j])@ == variant_name(variants@[j], convention),
            list@ == joined_names(names@.map_values(|n: String| n@)),
    {
        if !variants[i].unit {
            return Err(LuaEnumError::NotUnit(i));
        }
        if !variants[i].attrs_parse {
            return Err(LuaEnumError::BadAttributes(i));
        }
        let name = match &variants[i].rename {
            Some(n) => n.clone(),
            None => apply_rename(variants[i].ident.as_str(), convention),
        };
        let ghost before = names@;
        let ghost before_list = list@;
        if i > 0 {
            list.push(',');
            list.push(' ');
        }
        let nc = chars_of(name.as_str());
        let mut k: usize = 0;
        let ghost mid = list@;
        while k < nc.len()
            invariant
                k <= nc@.len(),
                list@ == mid + nc@.take(k as int),
            decreases nc@.len() - k,
        {
            list.push(nc[k]);
            assert(list@ =~= mid + nc@.take(k + 1));
            k = k + 1;
        }
        assert(nc@.take(nc@.len() as int) =~= nc@);
        names.push(name);
        proof {
            let views = names@.map_values(|n: String| n@);
            assert(views.drop_last() =~= before.map_values(|n: String| n@));
            if i > 0 {
                reveal_strlit(", ");
                assert(", "@ =~= seq![',', ' ']);
                assert(list@ =~= before_list + ", "@ + nc@);
            } else {
                assert(views =~= seq![nc@]);
                assert(list@ =~= nc@);
            }
        }
    }
    let mut message = String::from_str("Expected one of: ");
    let text = string_from_chars(&list);
    message.append(text.as_str());
    Ok(LuaEnumPlan { names, error_message: message })
}

} // verus!
