//! The decisions of the property-metadata derive: which fields of a config
//! struct become properties, under which dotted path, of which type.
use vstd::prelude::*;
use vstd::string::StringExecFns;
use crate::derive_plan::{FieldMeta, ItemShape};
use crate::text::{chars_of, eq_lit, split_chars, split_on, string_from_chars, trim, trimmed};

verus! {

/// The type of a property that is not an array or an enum.
#[derive(PartialEq, Eq, Structural, Clone, Copy, Debug)]
pub enum ScalarKind {
    Bool,
    Integer,
    Number,
    String,
    Nested,
}

/// The type of a property: `T` is a text, `L` a list of texts.
pub enum PropertyKind<T, L> {
    Scalar(ScalarKind),
    Array(ScalarKind),
    Enum { name: T, variants: L },
}

/// A property kind with its texts as character sequences.
pub open spec fn kind_view(k: PropertyKind<String, Vec<String>>) -> PropertyKind<Seq<char>, Seq<Seq<char>>> {
    match k {
        PropertyKind::Scalar(s) => PropertyKind::Scalar(s),
        PropertyKind::Array(s) => PropertyKind::Array(s),
        PropertyKind::Enum { name, variants } => PropertyKind::Enum {
            name: name@,
            variants: variants@.map_values(|v: String| v@),
        },
    }
}

/// One entry of a struct's property metadata: its dotted path, its type,
/// and whether a change of it is announced by no signal.
pub struct PropertyEntry {
    pub path: String,
    pub kind: PropertyKind<String, Vec<String>>,
    pub no_signal: bool,
}

impl View for PropertyEntry {
    type V = (Seq<char>, PropertyKind<Seq<char>, Seq<Seq<char>>>, bool);

    open spec fn view(&self) -> (Seq<char>, PropertyKind<Seq<char>, Seq<Seq<char>>>, bool) {
        (self.path@, kind_view(self.kind), self.no_signal)
    }
}

/// A field of a config struct: its name, the meta items of its `config`
/// attributes, whether those attributes parse, the name of its type (the
/// last segment of its path, empty for a type that is no path) and the name
/// of its first generic type argument, where it has one.
pub struct ConfigField {
    pub name: String,
    pub metas: Vec<FieldMeta>,
    pub attrs_parse: bool,
    pub type_ident: String,
    pub inner_type_ident: Option<String>,
}

/// Why a struct has no property metadata.
#[derive(PartialEq, Eq, Structural, Clone, Copy, Debug)]
pub enum PropertiesError {
    /// "ConfigProperties requires non-empty #[config(prefix = \"...\")]"
    EmptyPrefix,
    /// "ConfigProperties only supports structs with named fields"
    NotNamed,
    /// "ConfigProperties can only be applied to structs"
    NotStruct,
    /// The attributes of the field at this index do not parse.
    BadAttributes(usize),
    /// The field at this index is an `Option` or a `Vec` without a generic
    /// type argument ("expected generic type").
    MissingInnerType(usize),
}

/// A meta item named `word` is among `metas`.
pub open spec fn has_meta(metas: Seq<FieldMeta>, word: Seq<char>) -> bool
    decreases metas.len(),
{
    metas.len() > 0 && (metas.last().path@ == word || has_meta(metas.drop_last(), word))
}

/// The value of the last meta item named `word` that has one.
pub open spec fn last_value(metas: Seq<FieldMeta>, word: Seq<char>) -> Option<Seq<char>>
    decreases metas.len(),
{
    if metas.len() == 0 {
        None
    } else if metas.last().path@ == word && metas.last().value is Some {
        Some(metas.last().value.unwrap()@)
    } else {
        last_value(metas.drop_last(), word)
    }
}

/// The pieces of a comma-separated list, each trimmed.
pub open spec fn list_items(s: Seq<char>) -> Seq<Seq<char>> {
    split_on(s, ',').map_values(|p: Seq<char>| trimmed(p))
}

/// The attributes of a field of a config struct.
pub struct ConfigFieldAttrs {
    pub skip: bool,
    pub no_signal: bool,
    pub rename: Option<String>,
    pub enum_type: bool,
    pub enum_variants: Option<Vec<String>>,
}

/// Reads the attributes of a field from its meta items: `skip`,
/// `no_signal` and `enum_type` are flags; `rename` and `variants` take the
/// value of their last occurrence, `variants` split at commas and trimmed.
pub fn config_field_attrs(metas: &[FieldMeta]) -> (r: ConfigFieldAttrs)
    ensures
        r.skip == has_meta(metas@, "skip"@),
        r.no_signal == has_meta(metas@, "no_signal"@),
        r.enum_type == has_meta(metas@, "enum_type"@),
        match last_value(metas@, "rename"@) {
            Some(n) => r.rename matches Some(x) && x@ == n,
            None => r.rename is None,
        },
        match last_value(metas@, "variants"@) {
            Some(v) => r.enum_variants matches Some(x) && x@.map_values(|s: String| s@) == list_items(v),
            None => r.enum_variants is None,
        },
{
    let mut skip = false;
    let mut no_signal = false;
    let mut enum_type = false;
    let mut rename: Option<String> = None;
    let mut variants: Option<Vec<String>> = None;
    for i in 0..metas.len()
        invariant
            skip == has_meta(metas@.take(i as int), "skip"@),
            no_signal == has_meta(metas@.take(i as int), "no_signal"@),
            enum_type == has_meta(metas@.take(i as int), "enum_type"@),
            match last_value(metas@.take(i as int), "rename"@) {
                Some(n) => rename matches Some(x) && x@ == n,
                None => rename is None,
            },
            match last_value(metas@.take(i as int), "variants"@) {
                Some(v) => variants matches Some(x) && x@.map_values(|s: String| s@) == list_items(v),
                None => variants is None,
            },
    {
        assert(metas@.take(i + 1).drop_last() =~= metas@.take(i as int));
        assert(metas@.take(i + 1).last() == metas@[i as int]);
        let m = &metas[i];
        let p = chars_of(m.path.as_str());
        if eq_lit(&p, "skip") {
            skip = true;
        }
        if eq_lit(&p, "no_signal") {
            no_signal = true;
        }
        if eq_lit(&p, "enum_type") {
            enum_type = true;
        }
        if eq_lit(&p, "rename") {
            if let Some(v) = &m.value {
                rename = Some(v.clone());
            }
        }
        if eq_lit(&p, "variants") {
            if let Some(v) = &m.value {
                variants = Some(list_of(v.as_str()));
            }
        }
    }
    assert(metas@.take(metas@.len() as int) =~= metas@);
    ConfigFieldAttrs { skip, no_signal, rename, enum_type, enum_variants: variants }
}

fn list_of(s: &str) -> (r: Vec<String>)
    ensures
        r@.map_values(|x: String| x@) == list_items(s@),
{
    let parts = split_chars(s, ',');
    let mut out: Vec<String> = Vec::new();
    for i in 0..parts.len()
        invariant
            parts@.map_values(|v: Vec<char>| v@) == split_on(s@, ','),
            out@.map_values(|x: String| x@) == split_on(s@, ',').take(i as int).map_values(|p: Seq<char>| trimmed(p)),
    {
        let ghost before = out@;
        let piece = string_from_chars(&trim(&parts[i]));
        out.push(piece);
        assert(parts@.map_values(|v: Vec<char>| v@)[i as int] == parts@[i as int]@);
        assert(split_on(s@, ',').take(i + 1) =~= split_on(s@, ',').take(i as int).push(split_on(s@, ',')[i as int]));
        assert(out@.map_values(|x: String| x@) =~= before.map_values(|x: String| x@).push(piece@));
    }
    assert(split_on(s@, ',').take(parts@.len() as int) =~= split_on(s@, ','));
    out
}

/// The property type that a type name gives.
pub open spec fn scalar_kind(n: Seq<char>) -> ScalarKind {
    if n == "bool"@ {
        ScalarKind::Bool
    } else if n == "u8"@ || n == "u16"@ || n == "u32"@ || n == "u64"@ || n == "i8"@ || n == "i16"@
        || n == "i32"@ || n == "i64"@ || n == "usize"@ || n == "isize"@ {
        ScalarKind::Integer
    } else if n == "f32"@ || n == "f64"@ || n == "FloatOrInt"@ {
        ScalarKind::Number
    } else if n == "String"@ {
        ScalarKind::String
    } else {
        ScalarKind::Nested
    }
}

fn scalar_kind_of(n: &[char]) -> (r: ScalarKind)
    ensures
        r == scalar_kind(n@),
{
    if eq_lit(n, "bool") {
        ScalarKind::Bool
    } else if eq_lit(n, "u8") || eq_lit(n, "u16") || eq_lit(n, "u32") || eq_lit(n, "u64") || eq_lit(n, "i8")
        || eq_lit(n, "i16") || eq_lit(n, "i32") || eq_lit(n, "i64") || eq_lit(n, "usize") || eq_lit(n, "isize") {
        ScalarKind::Integer
    } else if eq_lit(n, "f32") || eq_lit(n, "f64") || eq_lit(n, "FloatOrInt") {
        ScalarKind::Number
    } else if eq_lit(n, "String") {
        ScalarKind::String
    } else {
        ScalarKind::Nested
    }
}

/// A type name that names a struct: not empty, and none of the primitive,
/// text, `Option` or `Vec` names.
pub open spec fn is_struct_name(n: Seq<char>) -> bool {
    &&& !(n == "bool"@ || n == "u8"@ || n == "u16"@ || n == "u32"@ || n == "u64"@ || n == "i8"@
        || n == "i16"@ || n == "i32"@ || n == "i64"@ || n == "usize"@ || n == "isize"@
        || n == "f32"@ || n == "f64"@ || n == "FloatOrInt"@ || n == "String"@ || n == "Option"@
        || n == "Vec"@)
    &&& n.len() > 0
}

fn struct_name(n: &[char]) -> (r: bool)
    ensures
        r == is_struct_name(n@),
{
    let primitive = eq_lit(n, "bool") || eq_lit(n, "u8") || eq_lit(n, "u16") || eq_lit(n, "u32")
        || eq_lit(n, "u64") || eq_lit(n, "i8") || eq_lit(n, "i16") || eq_lit(n, "i32")
        || eq_lit(n, "i64") || eq_lit(n, "usize") || eq_lit(n, "isize") || eq_lit(n, "f32")
        || eq_lit(n, "f64") || eq_lit(n, "FloatOrInt") || eq_lit(n, "String") || eq_lit(n, "Option")
        || eq_lit(n, "Vec");
    !primitive && n.len() > 0
}

/// Why one field gives no property.
#[derive(PartialEq, Eq, Structural, Clone, Copy, Debug)]
pub enum FieldFailure {
    BadAttributes,
    MissingInnerType,
}

/// The property that a field gives, if it is not skipped: its path is the
/// prefix, a dot and its Lua name (its `rename`, else its name); its type
/// is an enum of the listed variants for an `enum_type` field, the type of
/// the argument of an `Option`, an array of that of a `Vec`, nested for a
/// struct, else by its type name.
pub open spec fn field_property(prefix: Seq<char>, f: ConfigField) -> Result<Option<(Seq<char>, PropertyKind<Seq<char>, Seq<Seq<char>>>, bool)>, FieldFailure> {
    let metas = f.metas@;
    if !f.attrs_parse {
        Err(FieldFailure::BadAttributes)
    } else if has_meta(metas, "skip"@) {
        Ok(None)
    } else {
        let lua_name = match last_value(metas, "rename"@) {
            Some(n) => n,
            None => f.name@,
        };
        let path = prefix + "."@ + lua_name;
        let no_signal = has_meta(metas, "no_signal"@);
        if has_meta(metas, "enum_type"@) {
            Ok(Some((path, PropertyKind::Enum {
                name: f.type_ident@,
                variants: match last_value(metas, "variants"@) {
                    Some(v) => list_items(v),
                    None => Seq::empty(),
                },
            }, no_signal)))
        } else if f.type_ident@ == "Option"@ {
            match f.inner_type_ident {
                Some(n) => Ok(Some((path, PropertyKind::Scalar(scalar_kind(n@)), no_signal))),
                None => Err(FieldFailure::MissingInnerType),
            }
        } else if f.type_ident@ == "Vec"@ {
            match f.inner_type_ident {
                Some(n) => Ok(Some((path, PropertyKind::Array(scalar_kind(n@)), no_signal))),
                None => Err(FieldFailure::MissingInnerType),
            }
        } else if is_struct_name(f.type_ident@) {
            Ok(Some((path, PropertyKind::Scalar(ScalarKind::Nested), no_signal)))
        } else {
            Ok(Some((path, PropertyKind::Scalar(scalar_kind(f.type_ident@)), no_signal)))
        }
    }
}

/// The metadata of a struct with the given prefix and fields: an entry for
/// the prefix itself (nested), then one per field that is not skipped, in
/// order; or the first field that fails, with its index.
pub open spec fn planned_properties(prefix: Seq<char>, fields: Seq<ConfigField>) -> Result<Seq<(Seq<char>, PropertyKind<Seq<char>, Seq<Seq<char>>>, bool)>, (FieldFailure, int)>
    decreases fields.len(),
{
    if fields.len() == 0 {
        Ok(seq![(prefix, PropertyKind::Scalar(ScalarKind::Nested), false)])
    } else {
        match planned_properties(prefix, fields.drop_last()) {
            Err(e) => Err(e),
            Ok(es) => match field_property(prefix, fields.last()) {
                Err(k) => Err((k, fields.len() - 1)),
                Ok(None) => Ok(es),
                Ok(Some(e)) => Ok(es.push(e)),
            },
        }
    }
}

/// The entries with their texts as character sequences.
pub open spec fn entry_views(v: Seq<PropertyEntry>) -> Seq<(Seq<char>, PropertyKind<Seq<char>, Seq<Seq<char>>>, bool)> {
    v.map_values(|e: PropertyEntry| e@)
}

fn dotted(prefix: &str, name: &str) -> (r: String)
    ensures
        r@ == prefix@ + "."@ + name@,
{
    let mut s = String::from_str(prefix);
    s.append(".");
    s.append(name);
    s
}

fn property_of(prefix: &str, f: &ConfigField) -> (r: Result<Option<PropertyEntry>, FieldFailure>)
    ensures
        match field_property(prefix@, *f) {
            Ok(Some(e)) => r matches Ok(Some(x)) && x@ == e,
            Ok(None) => r matches Ok(None),
            Err(k) => r == Err::<Option<PropertyEntry>, _>(k),
        },
{
    if !f.attrs_parse {
        return Err(FieldFailure::BadAttributes);
    }
    let attrs = config_field_attrs(f.metas.as_slice());
    if attrs.skip {
        return Ok(None);
    }
    let lua_name = match attrs.rename {
        Some(n) => n,
        None => f.name.clone(),
    };
    let path = dotted(prefix, lua_name.as_str());
    let tn = chars_of(f.type_ident.as_str());
    let kind = if attrs.enum_type {
        let variants = match attrs.enum_variants {
            Some(v) => v,
            None => {
                let v: Vec<String> = Vec::new();
                assert(v@.map_values(|s: String| s@) =~= Seq::<Seq<char>>::empty());
                v
            },
        };
        PropertyKind::Enum { name: f.type_ident.clone(), variants }
    } else if eq_lit(&tn, "Option") {
        match &f.inner_type_ident {
            Some(n) => PropertyKind::Scalar(scalar_kind_of(&chars_of(n.as_str()))),
            None => return Err(FieldFailure::MissingInnerType),
        }
    } else if eq_lit(&tn, "Vec") {
        match &f.inner_type_ident {
            Some(n) => PropertyKind::Array(scalar_kind_of(&chars_of(n.as_str()))),
            None => return Err(FieldFailure::MissingInnerType),
        }
    } else if struct_name(&tn) {
        PropertyKind::Scalar(ScalarKind::Nested)
    } else {
        PropertyKind::Scalar(scalar_kind_of(&tn))
    };
    Ok(Some(PropertyEntry { path, kind, no_signal: attrs.no_signal }))
}

/// The property metadata of a config struct with the given `prefix` (the
/// value of its last `prefix` meta item, empty when none): refused when the
/// prefix is empty, for an item that is not a struct with named fields, and
/// at the first field whose attributes do not parse or whose `Option` or
/// `Vec` type has no generic argument.
pub fn plan_properties(prefix: &str, shape: ItemShape, fields: &[ConfigField]) -> (r: Result<Vec<PropertyEntry>, PropertiesError>)
    ensures
        prefix@.len() == 0 ==> r == Err::<Vec<PropertyEntry>, _>(PropertiesError::EmptyPrefix),
        prefix@.len() > 0 && shape == ItemShape::NotStruct ==> r == Err::<Vec<PropertyEntry>, _>(PropertiesError::NotStruct),
        prefix@.len() > 0 && shape == ItemShape::OtherStruct ==> r == Err::<Vec<PropertyEntry>, _>(PropertiesError::NotNamed),
        prefix@.len() > 0 && shape == ItemShape::NamedStruct ==> match planned_properties(prefix@, fields@) {
            Ok(es) => r matches Ok(v) && entry_views(v@) == es,
            Err((FieldFailure::BadAttributes, i)) => r == Err::<Vec<PropertyEntry>, _>(PropertiesError::BadAttributes(i as usize)),
            Err((FieldFailure::MissingInnerType, i)) => r == Err::<Vec<PropertyEntry>, _>(PropertiesError::MissingInnerType(i as usize)),
        },
{
    if prefix.unicode_len() == 0 {
        return Err(PropertiesError::EmptyPrefix);
    }
    match shape {
        ItemShape::NotStruct => return Err(PropertiesError::NotStruct),
        ItemShape::OtherStruct => return Err(PropertiesError::NotNamed),
        ItemShape::NamedStruct => {},
    }
    let mut entries: Vec<PropertyEntry> = Vec::new();
    entries.push(PropertyEntry {
        path: String::from_str(prefix),
        kind: PropertyKind::Scalar(ScalarKind::Nested),
        no_signal: false,
    });
    assert(fields@.take(0) =~= Seq::<ConfigField>::empty());
    assert(entry_views(entries@) =~= seq![(prefix@, PropertyKind::<Seq<char>, Seq<Seq<char>>>::Scalar(ScalarKind::Nested), false)]);
    for i in 0..fields.len()
        invariant
            prefix@.len() > 0,
            shape == ItemShape::NamedStruct,
            planned_properties(prefix@, fields@.take(i as int)) == Ok::<_, (FieldFailure, int)>(entry_views(entries@)),
    {
        assert(fields@.take(i + 1).drop_last() =~= fields@.take(i as int));
        assert(fields@.take(i + 1).last() == fields@[i as int]);
        let ghost before = entries@;
        match property_of(prefix, &fields[i]) {
            Err(k) => {
                proof {
                    lemma_planned_fails_on(prefix@, fields@, i as int);
                }
                return match k {
                    FieldFailure::BadAttributes => Err(PropertiesError::BadAttributes(i)),
                    FieldFailure::MissingInnerType => Err(PropertiesError::MissingInnerType(i)),
                };
            },
            Ok(None) => {},
            Ok(Some(e)) => {
                entries.push(e);
                assert(entry_views(entries@) =~= entry_views(before).push(e@));
            },
        }
    }
    assert(fields@.take(fields@.len() as int) =~= fields@);
    Ok(entries)
}

/// Once the fields before `i` plan and field `i` fails, the whole plan
/// fails at `i`.
proof fn lemma_planned_fails_on(prefix: Seq<char>, fields: Seq<ConfigField>, i: int)
    requires
        0 <= i < fields.len(),
        planned_properties(prefix, fields.take(i)) is Ok,
        field_property(prefix, fields[i]) is Err,
    ensures
        planned_properties(prefix, fields) == Err::<Seq<(Seq<char>, PropertyKind<Seq<char>, Seq<Seq<char>>>, bool)>, _>((field_property(prefix, fields[i])->Err_0, i)),
    decreases fields.len(),
{
    if fields.len() == i + 1 {
        assert(fields.drop_last() =~= fields.take(i));
    } else {
        assert(fields.drop_last().take(i) =~= fields.take(i));
        lemma_planned_fails_on(prefix, fields.drop_last(), i);
        assert(fields.drop_last()[i] == fields[i]);
    }
}

} // verus!
