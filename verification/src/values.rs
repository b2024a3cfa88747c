//! Parsing of the textual values that scripts hand to the compositor: size
//! and position changes, workspace references, layout targets, transforms and
//! other small enumerations.
use vstd::prelude::*;
use crate::numbers::{float_literal_ok, float_text_ok, in_range, parse_i32, parse_u8, parse_unsigned, signed_text_value, unsigned_text_value};
use crate::text::{chars_of, eq_lit, find_char, first_index, fold, folded, lemma_first_index, slice_chars, string_from_chars, strip_leading, strip_leading_chars, strip_trailing, strip_trailing_chars, trim, trimmed};

verus! {

/// A number written as text that `f64::from_str` accepts, with a sign and a
/// scale: its value is `literal` read as a float, negated when `negated`, and
/// divided by 100 when `per_cent`.
pub struct ScaledLiteral {
    pub literal: String,
    pub negated: bool,
    pub per_cent: bool,
}

impl View for ScaledLiteral {
    type V = (Seq<char>, bool, bool);

    open spec fn view(&self) -> (Seq<char>, bool, bool) {
        (self.literal@, self.negated, self.per_cent)
    }
}

/// A change of a window or column size.
pub enum SizeChange<P> {
    SetFixed(i32),
    SetProportion(P),
    AdjustFixed(i32),
    AdjustProportion(P),
}

/// A change of a floating window's position.
pub enum PositionChange<F> {
    SetFixed(F),
    SetProportion(F),
    AdjustFixed(F),
    AdjustProportion(F),
}

/// A reference to a workspace by id, index or name.
pub enum WorkspaceReferenceArg {
    Id(u64),
    Index(u8),
    Name(String),
}

/// Which keyboard layout to switch to.
#[derive(PartialEq, Eq, Structural, Clone, Copy, Debug)]
pub enum LayoutSwitchTarget {
    Next,
    Prev,
    Index(u8),
}

/// An output transform.
#[derive(PartialEq, Eq, Structural, Clone, Copy, Debug)]
pub enum Transform {
    Normal,
    _90,
    _180,
    _270,
    Flipped,
    Flipped90,
    Flipped180,
    Flipped270,
}

/// How the windows of a column are displayed.
#[derive(PartialEq, Eq, Structural, Clone, Copy, Debug)]
pub enum ColumnDisplay {
    Normal,
    Tabbed,
}

/// What a window is blocked out from.
#[derive(PartialEq, Eq, Structural, Clone, Copy, Debug)]
pub enum BlockOutFrom {
    Screencast,
    ScreenCapture,
}

/// Horizontal sync polarity of a modeline.
#[derive(PartialEq, Eq, Structural, Clone, Copy, Debug)]
pub enum HSyncPolarity {
    PHSync,
    NHSync,
}

/// Vertical sync polarity of a modeline.
#[derive(PartialEq, Eq, Structural, Clone, Copy, Debug)]
pub enum VSyncPolarity {
    PVSync,
    NVSync,
}

/// Variable refresh rate setting of an output.
#[derive(PartialEq, Eq, Structural, Clone, Copy, Debug)]
pub struct Vrr {
    pub on_demand: bool,
}

/// The view of a size change whose proportions are scaled literals.
pub open spec fn size_change_view(c: SizeChange<ScaledLiteral>) -> SizeChange<(Seq<char>, bool, bool)> {
    match c {
        SizeChange::SetFixed(v) => SizeChange::SetFixed(v),
        SizeChange::SetProportion(p) => SizeChange::SetProportion(p@),
        SizeChange::AdjustFixed(v) => SizeChange::AdjustFixed(v),
        SizeChange::AdjustProportion(p) => SizeChange::AdjustProportion(p@),
    }
}

/// The view of a position change whose amounts are scaled literals.
pub open spec fn position_change_view(c: PositionChange<ScaledLiteral>) -> PositionChange<(Seq<char>, bool, bool)> {
    match c {
        PositionChange::SetFixed(v) => PositionChange::SetFixed(v@),
        PositionChange::SetProportion(p) => PositionChange::SetProportion(p@),
        PositionChange::AdjustFixed(v) => PositionChange::AdjustFixed(v@),
        PositionChange::AdjustProportion(p) => PositionChange::AdjustProportion(p@),
    }
}

/// The `i32` that `str::parse` reads from `s`.
pub open spec fn i32_value(s: Seq<char>) -> Option<i32> {
    match in_range(signed_text_value(s), -0x8000_0000, 0x7fff_ffff) {
        Some(v) => Some(v as i32),
        None => None,
    }
}

/// The `u8` that `str::parse` reads from `s`.
pub open spec fn u8_value(s: Seq<char>) -> Option<u8> {
    match in_range(unsigned_text_value(s), 0, 255) {
        Some(v) => Some(v as u8),
        None => None,
    }
}

/// The `u16` that `str::parse` reads from `s`.
pub open spec fn u16_value(s: Seq<char>) -> Option<u16> {
    match in_range(unsigned_text_value(s), 0, 65535) {
        Some(v) => Some(v as u16),
        None => None,
    }
}

/// A per-cent literal, when `f64::from_str` accepts it.
pub open spec fn percent_of(t: Seq<char>, negated: bool) -> Option<(Seq<char>, bool, bool)> {
    if float_text_ok(t) { Some((t, negated, true)) } else { None }
}

/// A size change written as `+N%`, `-N%`, `N%`, `+N`, `-N` or `N` (surrounding
/// white space ignored): per-cent values change the proportion, plain integers
/// the size in pixels; a leading sign makes the change relative.
pub open spec fn size_change_text(s: Seq<char>) -> Option<SizeChange<(Seq<char>, bool, bool)>> {
    let t = trimmed(s);
    if t.len() > 0 && t.last() == '%' {
        let n = t.drop_last();
        if n.len() > 0 && n[0] == '+' {
            match percent_of(n.drop_first(), false) {
                Some(p) => Some(SizeChange::AdjustProportion(p)),
                None => None,
            }
        } else if n.len() > 0 && n[0] == '-' {
            match percent_of(n.drop_first(), true) {
                Some(p) => Some(SizeChange::AdjustProportion(p)),
                None => None,
            }
        } else {
            match percent_of(n, false) {
                Some(p) => Some(SizeChange::SetProportion(p)),
                None => None,
            }
        }
    } else if t.len() > 0 && t[0] == '+' {
        match i32_value(t.drop_first()) {
            Some(v) => Some(SizeChange::AdjustFixed(v)),
            None => None,
        }
    } else if t.len() > 0 && t[0] == '-' {
        match i32_value(t) {
            Some(v) => Some(SizeChange::AdjustFixed(v)),
            None => None,
        }
    } else {
        match i32_value(t) {
            Some(v) => Some(SizeChange::SetFixed(v)),
            None => None,
        }
    }
}

fn scaled(literal: Vec<char>, negated: bool, per_cent: bool) -> (r: ScaledLiteral)
    ensures
        r@ == (literal@, negated, per_cent),
{
    ScaledLiteral { literal: string_from_chars(&literal), negated, per_cent }
}

fn tail(s: &[char]) -> (r: Vec<char>)
    requires
        s@.len() > 0,
    ensures
        r@ == s@.drop_first(),
{
    let r = slice_chars(s, 1, s.len());
    assert(r@ =~= s@.drop_first());
    r
}

fn init(s: &[char]) -> (r: Vec<char>)
    requires
        s@.len() > 0,
    ensures
        r@ == s@.drop_last(),
{
    let r = slice_chars(s, 0, s.len() - 1);
    assert(r@ =~= s@.drop_last());
    r
}

/// Parse a size change written as text (the form that key bindings use).
pub fn parse_size_change(s: &str) -> (r: Option<SizeChange<ScaledLiteral>>)
    ensures
        match r {
            Some(c) => size_change_text(s@) == Some(size_change_view(c)),
            None => size_change_text(s@) is None,
        },
{
    let t = trim(&chars_of(s));
    let n = t.len();
    if n > 0 && t[n - 1] == '%' {
        let num = init(&t);
        if num.len() > 0 && num[0] == '+' {
            let lit = tail(&num);
            if float_literal_ok(&lit) {
                Some(SizeChange::AdjustProportion(scaled(lit, false, true)))
            } else {
                None
            }
        } else if num.len() > 0 && num[0] == '-' {
            let lit = tail(&num);
            if float_literal_ok(&lit) {
                Some(SizeChange::AdjustProportion(scaled(lit, true, true)))
            } else {
                None
            }
        } else if float_literal_ok(&num) {
            Some(SizeChange::SetProportion(scaled(num, false, true)))
        } else {
            None
        }
    } else if n > 0 && t[0] == '+' {
        match parse_i32(&tail(&t)) {
            Some(v) => Some(SizeChange::AdjustFixed(v)),
            None => None,
        }
    } else if n > 0 && t[0] == '-' {
        match parse_i32(&t) {
            Some(v) => Some(SizeChange::AdjustFixed(v)),
            None => None,
        }
    } else {
        match parse_i32(&t) {
            Some(v) => Some(SizeChange::SetFixed(v)),
            None => None,
        }
    }
}

/// The size-change text form of the collection API: like `size_change_text`,
/// but every trailing `%` is dropped, and a leading `-` on a pixel value is
/// read off before the number, whose negation is taken.
pub open spec fn collection_size_change_text(s: Seq<char>) -> Option<SizeChange<(Seq<char>, bool, bool)>> {
    let t = trimmed(s);
    if t.len() > 0 && t.last() == '%' {
        let n = strip_trailing(t, '%');
        if n.len() > 0 && n[0] == '+' {
            match percent_of(n.drop_first(), false) {
                Some(p) => Some(SizeChange::AdjustProportion(p)),
                None => None,
            }
        } else if n.len() > 0 && n[0] == '-' {
            match percent_of(n.drop_first(), true) {
                Some(p) => Some(SizeChange::AdjustProportion(p)),
                None => None,
            }
        } else {
            match percent_of(n, false) {
                Some(p) => Some(SizeChange::SetProportion(p)),
                None => None,
            }
        }
    } else if t.len() > 0 && t[0] == '+' {
        match i32_value(t.drop_first()) {
            Some(v) => Some(SizeChange::AdjustFixed(v)),
            None => None,
        }
    } else if t.len() > 0 && t[0] == '-' {
        match i32_value(t.drop_first()) {
            Some(v) => Some(SizeChange::AdjustFixed((-v) as i32)),
            None => None,
        }
    } else {
        match i32_value(t) {
            Some(v) => Some(SizeChange::SetFixed(v)),
            None => None,
        }
    }
}

/// The input on which the collection form negates `i32::MIN`, which overflows.
pub open spec fn collection_size_change_overflows(s: Seq<char>) -> bool {
    let t = trimmed(s);
    &&& !(t.len() > 0 && t.last() == '%')
    &&& t.len() > 0 && t[0] == '-'
    &&& i32_value(t.drop_first()) == Some(i32::MIN)
}

/// Whether the collection form of a size change would negate `i32::MIN`.
pub fn collection_size_change_overflows_exec(s: &str) -> (r: bool)
    ensures
        r == collection_size_change_overflows(s@),
{
    let t = trim(&chars_of(s));
    let n = t.len();
    if n > 0 && t[n - 1] != '%' && t[0] == '-' {
        match parse_i32(&tail(&t)) {
            Some(v) => v == i32::MIN,
            None => false,
        }
    } else {
        false
    }
}

/// Parse a size change written as text in the collection API form.
pub fn parse_size_change_string(s: &str) -> (r: Option<SizeChange<ScaledLiteral>>)
    requires
        !collection_size_change_overflows(s@),
    ensures
        match r {
            Some(c) => collection_size_change_text(s@) == Some(size_change_view(c)),
            None => collection_size_change_text(s@) is None,
        },
{
    let t = trim(&chars_of(s));
    let n = t.len();
    if n > 0 && t[n - 1] == '%' {
        let num = strip_trailing_chars(&t, '%');
        if num.len() > 0 && num[0] == '+' {
            let lit = tail(&num);
            if float_literal_ok(&lit) {
                Some(SizeChange::AdjustProportion(scaled(lit, false, true)))
            } else {
                None
            }
        } else if num.len() > 0 && num[0] == '-' {
            let lit = tail(&num);
            if float_literal_ok(&lit) {
                Some(SizeChange::AdjustProportion(scaled(lit, true, true)))
            } else {
                None
            }
        } else if float_literal_ok(&num) {
            Some(SizeChange::SetProportion(scaled(num, false, true)))
        } else {
            None
        }
    } else if n > 0 && t[0] == '+' {
        match parse_i32(&tail(&t)) {
            Some(v) => Some(SizeChange::AdjustFixed(v)),
            None => None,
        }
    } else if n > 0 && t[0] == '-' {
        match parse_i32(&tail(&t)) {
            Some(v) => Some(SizeChange::AdjustFixed(-v)),
            None => None,
        }
    } else {
        match parse_i32(&t) {
            Some(v) => Some(SizeChange::SetFixed(v)),
            None => None,
        }
    }
}

/// Why a position change could not be read.
#[derive(PartialEq, Eq, Structural, Clone, Copy, Debug)]
pub enum PositionChangeError {
    Empty,
    InvalidProportion,
    InvalidPosition,
}

/// A position change written as text: optional leading `+` or `-` (relative
/// change; `-` negates), optional trailing `%` (a proportion, per cent);
/// surrounding white space ignored. Every leading `+`, then every leading
/// `-`, then every trailing `%` is dropped before the number is read.
pub open spec fn position_change_text(s: Seq<char>) -> Result<PositionChange<(Seq<char>, bool, bool)>, PositionChangeError> {
    let t = trimmed(s);
    if t.len() == 0 {
        Err(PositionChangeError::Empty)
    } else {
        let relative = t[0] == '+' || t[0] == '-';
        let proportion = t.last() == '%';
        let num = strip_trailing(strip_leading(strip_leading(t, '+'), '-'), '%');
        let negated = t[0] == '-';
        if !float_text_ok(num) {
            Err(if proportion { PositionChangeError::InvalidProportion } else { PositionChangeError::InvalidPosition })
        } else if proportion {
            if relative {
                Ok(PositionChange::AdjustProportion((num, negated, true)))
            } else {
                Ok(PositionChange::SetProportion((num, false, true)))
            }
        } else if relative {
            Ok(PositionChange::AdjustFixed((num, negated, false)))
        } else {
            Ok(PositionChange::SetFixed((num, false, false)))
        }
    }
}

/// Parse a position change written as text.
pub fn parse_position_change_str(s: &str) -> (r: Result<PositionChange<ScaledLiteral>, PositionChangeError>)
    ensures
        match r {
            Ok(c) => position_change_text(s@) == Ok::<_, PositionChangeError>(position_change_view(c)),
            Err(e) => position_change_text(s@) == Err::<PositionChange<(Seq<char>, bool, bool)>, _>(e),
        },
{
    let t = trim(&chars_of(s));
    let n = t.len();
    if n == 0 {
        return Err(PositionChangeError::Empty);
    }
    let relative = t[0] == '+' || t[0] == '-';
    let proportion = t[n - 1] == '%';
    let negated = t[0] == '-';
    let num = strip_trailing_chars(&strip_leading_chars(&strip_leading_chars(&t, '+'), '-'), '%');
    if !float_literal_ok(&num) {
        return Err(if proportion { PositionChangeError::InvalidProportion } else { PositionChangeError::InvalidPosition });
    }
    if proportion {
        if relative {
            Ok(PositionChange::AdjustProportion(scaled(num, negated, true)))
        } else {
            Ok(PositionChange::SetProportion(scaled(num, false, true)))
        }
    } else if relative {
        Ok(PositionChange::AdjustFixed(scaled(num, negated, false)))
    } else {
        Ok(PositionChange::SetFixed(scaled(num, false, false)))
    }
}

/// A workspace named by text: a `u8` index when the text reads as one,
/// otherwise a name.
pub fn workspace_reference_from_text(s: &str) -> (r: WorkspaceReferenceArg)
    ensures
        match u8_value(s@) {
            Some(i) => r == WorkspaceReferenceArg::Index(i),
            None => r matches WorkspaceReferenceArg::Name(n) && n@ == s@,
        },
{
    match parse_u8(s) {
        Some(i) => WorkspaceReferenceArg::Index(i),
        None => WorkspaceReferenceArg::Name(s.to_string()),
    }
}

/// `next` or `prev`/`previous` in any letter case, else a `u8` index.
pub open spec fn layout_target_text(s: Seq<char>) -> Option<LayoutSwitchTarget> {
    if folded(s) == "next"@ {
        Some(LayoutSwitchTarget::Next)
    } else if folded(s) == "prev"@ || folded(s) == "previous"@ {
        Some(LayoutSwitchTarget::Prev)
    } else {
        match u8_value(s) {
            Some(i) => Some(LayoutSwitchTarget::Index(i)),
            None => None,
        }
    }
}

/// Parse a layout switch target written as text.
pub fn parse_layout_switch_target(s: &str) -> (r: Option<LayoutSwitchTarget>)
    ensures
        r == layout_target_text(s@),
{
    let low = fold(&chars_of(s));
    if eq_lit(&low, "next") {
        Some(LayoutSwitchTarget::Next)
    } else if eq_lit(&low, "prev") || eq_lit(&low, "previous") {
        Some(LayoutSwitchTarget::Prev)
    } else {
        match parse_u8(s) {
            Some(i) => Some(LayoutSwitchTarget::Index(i)),
            None => None,
        }
    }
}

/// `next` or `prev`/`previous` in any letter case, without the index form.
pub fn parse_layout_switch_word(s: &str) -> (r: Option<LayoutSwitchTarget>)
    ensures
        r == (if folded(s@) == "next"@ {
            Some(LayoutSwitchTarget::Next)
        } else if folded(s@) == "prev"@ || folded(s@) == "previous"@ {
            Some(LayoutSwitchTarget::Prev)
        } else {
            None
        }),
{
    let low = fold(&chars_of(s));
    if eq_lit(&low, "next") {
        Some(LayoutSwitchTarget::Next)
    } else if eq_lit(&low, "prev") || eq_lit(&low, "previous") {
        Some(LayoutSwitchTarget::Prev)
    } else {
        None
    }
}

/// The transform that an exact transform name denotes.
pub open spec fn transform_name(s: Seq<char>) -> Option<Transform> {
    if s == "normal"@ {
        Some(Transform::Normal)
    } else if s == "90"@ {
        Some(Transform::_90)
    } else if s == "180"@ {
        Some(Transform::_180)
    } else if s == "270"@ {
        Some(Transform::_270)
    } else if s == "flipped"@ {
        Some(Transform::Flipped)
    } else if s == "flipped-90"@ {
        Some(Transform::Flipped90)
    } else if s == "flipped-180"@ {
        Some(Transform::Flipped180)
    } else if s == "flipped-270"@ {
        Some(Transform::Flipped270)
    } else {
        None
    }
}

fn transform_from_chars(s: &[char]) -> (r: Option<Transform>)
    ensures
        r == transform_name(s@),
{
    if eq_lit(s, "normal") {
        Some(Transform::Normal)
    } else if eq_lit(s, "90") {
        Some(Transform::_90)
    } else if eq_lit(s, "180") {
        Some(Transform::_180)
    } else if eq_lit(s, "270") {
        Some(Transform::_270)
    } else if eq_lit(s, "flipped") {
        Some(Transform::Flipped)
    } else if eq_lit(s, "flipped-90") {
        Some(Transform::Flipped90)
    } else if eq_lit(s, "flipped-180") {
        Some(Transform::Flipped180)
    } else if eq_lit(s, "flipped-270") {
        Some(Transform::Flipped270)
    } else {
        None
    }
}

/// The transform an exact name denotes (output tables).
pub fn parse_output_transform(s: &str) -> (r: Option<Transform>)
    ensures
        r == transform_name(s@),
{
    transform_from_chars(&chars_of(s))
}

/// A transform name in any letter case, where `0` also means `normal`
/// (collection API).
pub fn parse_transform(s: &str) -> (r: Option<Transform>)
    ensures
        r == (if folded(s@) == "0"@ { Some(Transform::Normal) } else { transform_name(folded(s@)) }),
{
    let low = fold(&chars_of(s));
    if eq_lit(&low, "0") {
        Some(Transform::Normal)
    } else {
        transform_from_chars(&low)
    }
}

/// An exact transform name, `normal` for anything else (pending changes).
pub fn transform_or_normal(s: &str) -> (r: Transform)
    ensures
        r == (match transform_name(s@) {
            Some(t) => t,
            None => Transform::Normal,
        }),
{
    match transform_from_chars(&chars_of(s)) {
        Some(t) => t,
        None => Transform::Normal,
    }
}

/// The name of a transform; `transform_name` reads it back.
pub fn transform_to_name(t: Transform) -> (r: &'static str)
    ensures
        transform_name(r@) == Some(t),
{
    let r = match t {
        Transform::Normal => "normal",
        Transform::_90 => "90",
        Transform::_180 => "180",
        Transform::_270 => "270",
        Transform::Flipped => "flipped",
        Transform::Flipped90 => "flipped-90",
        Transform::Flipped180 => "flipped-180",
        Transform::Flipped270 => "flipped-270",
    };
    proof {
        broadcast use vstd::string::group_string_axioms;
        reveal_strlit("normal");
        reveal_strlit("90");
        reveal_strlit("180");
        reveal_strlit("270");
        reveal_strlit("flipped");
        reveal_strlit("flipped-90");
        reveal_strlit("flipped-180");
        reveal_strlit("flipped-270");
        assert("normal"@.len() == 6);
        assert("90"@.len() == 2);
        assert("180"@.len() == 3 && "180"@[0] == '1');
        assert("270"@.len() == 3 && "270"@[0] == '2');
        assert("flipped"@.len() == 7);
        assert("flipped-90"@.len() == 10);
        assert("flipped-180"@.len() == 11 && "flipped-180"@[8] == '1');
        assert("flipped-270"@.len() == 11 && "flipped-270"@[8] == '2');
    }
    r
}

/// `normal` or `tabbed` in any letter case.
pub fn parse_column_display(s: &str) -> (r: Option<ColumnDisplay>)
    ensures
        r == (if folded(s@) == "normal"@ {
            Some(ColumnDisplay::Normal)
        } else if folded(s@) == "tabbed"@ {
            Some(ColumnDisplay::Tabbed)
        } else {
            None
        }),
{
    let low = fold(&chars_of(s));
    if eq_lit(&low, "normal") {
        Some(ColumnDisplay::Normal)
    } else if eq_lit(&low, "tabbed") {
        Some(ColumnDisplay::Tabbed)
    } else {
        None
    }
}

/// `screencast`, or `screen_capture`/`screen-capture`, in any letter case.
pub fn parse_block_out_from(s: &str) -> (r: Option<BlockOutFrom>)
    ensures
        r == (if folded(s@) == "screencast"@ {
            Some(BlockOutFrom::Screencast)
        } else if folded(s@) == "screen_capture"@ || folded(s@) == "screen-capture"@ {
            Some(BlockOutFrom::ScreenCapture)
        } else {
            None
        }),
{
    let low = fold(&chars_of(s));
    if eq_lit(&low, "screencast") {
        Some(BlockOutFrom::Screencast)
    } else if eq_lit(&low, "screen_capture") || eq_lit(&low, "screen-capture") {
        Some(BlockOutFrom::ScreenCapture)
    } else {
        None
    }
}

/// `+hsync` or `-hsync`.
pub fn parse_hsync_polarity(s: &str) -> (r: Option<HSyncPolarity>)
    ensures
        r == (if s@ == "+hsync"@ {
            Some(HSyncPolarity::PHSync)
        } else if s@ == "-hsync"@ {
            Some(HSyncPolarity::NHSync)
        } else {
            None
        }),
{
    let cs = chars_of(s);
    if eq_lit(&cs, "+hsync") {
        Some(HSyncPolarity::PHSync)
    } else if eq_lit(&cs, "-hsync") {
        Some(HSyncPolarity::NHSync)
    } else {
        None
    }
}

/// `+vsync` or `-vsync`.
pub fn parse_vsync_polarity(s: &str) -> (r: Option<VSyncPolarity>)
    ensures
        r == (if s@ == "+vsync"@ {
            Some(VSyncPolarity::PVSync)
        } else if s@ == "-vsync"@ {
            Some(VSyncPolarity::NVSync)
        } else {
            None
        }),
{
    let cs = chars_of(s);
    if eq_lit(&cs, "+vsync") {
        Some(VSyncPolarity::PVSync)
    } else if eq_lit(&cs, "-vsync") {
        Some(VSyncPolarity::NVSync)
    } else {
        None
    }
}

/// Variable refresh rate from text in an output table: `on`/`true` always,
/// `on-demand` on demand, anything else off.
pub fn vrr_from_output_text(s: &str) -> (r: Option<Vrr>)
    ensures
        r == (if s@ == "on"@ || s@ == "true"@ {
            Some(Vrr { on_demand: false })
        } else if s@ == "on-demand"@ {
            Some(Vrr { on_demand: true })
        } else {
            None
        }),
{
    let cs = chars_of(s);
    if eq_lit(&cs, "on") || eq_lit(&cs, "true") {
        Some(Vrr { on_demand: false })
    } else if eq_lit(&cs, "on-demand") {
        Some(Vrr { on_demand: true })
    } else {
        None
    }
}

/// Variable refresh rate from text in the collection API:
/// `on-demand`/`on_demand` on demand, `always` always, anything else off.
pub fn vrr_from_collection_text(s: &str) -> (r: Option<Vrr>)
    ensures
        r == (if s@ == "on-demand"@ || s@ == "on_demand"@ {
            Some(Vrr { on_demand: true })
        } else if s@ == "always"@ {
            Some(Vrr { on_demand: false })
        } else {
            None
        }),
{
    let cs = chars_of(s);
    if eq_lit(&cs, "on-demand") || eq_lit(&cs, "on_demand") {
        Some(Vrr { on_demand: true })
    } else if eq_lit(&cs, "always") {
        Some(Vrr { on_demand: false })
    } else {
        None
    }
}

/// An output mode read from `WIDTHxHEIGHT[@REFRESH]`; the refresh rate stays
/// as the float text it was written with.
pub struct ModeText {
    pub width: u16,
    pub height: u16,
    pub refresh: Option<String>,
}

/// Why a mode could not be read.
#[derive(PartialEq, Eq, Structural, Clone, Copy, Debug)]
pub enum ModeError {
    InvalidRefresh,
    InvalidFormat,
    InvalidWidth,
    InvalidHeight,
}

/// The mode text split at the first `@`: the resolution, and the refresh
/// text when there is an `@`.
pub open spec fn mode_parts(s: Seq<char>) -> (Seq<char>, Option<Seq<char>>) {
    let at = first_index(s, '@');
    if at >= 0 { (s.take(at), Some(s.skip(at + 1))) } else { (s, None) }
}

/// What `parse_mode_string` reads from `s`: width, height and refresh text.
pub open spec fn mode_text(s: Seq<char>) -> Result<(u16, u16, Option<Seq<char>>), ModeError> {
    let (res, rate) = mode_parts(s);
    if rate is Some && !float_text_ok(rate->0) {
        Err(ModeError::InvalidRefresh)
    } else {
        let x = first_index(res, 'x');
        let rest = res.skip(x + 1);
        if x < 0 || first_index(rest, 'x') >= 0 {
            Err(ModeError::InvalidFormat)
        } else {
            match u16_value(res.take(x)) {
                None => Err(ModeError::InvalidWidth),
                Some(w) => match u16_value(rest) {
                    None => Err(ModeError::InvalidHeight),
                    Some(h) => Ok((w, h, rate)),
                },
            }
        }
    }
}

/// Read an output mode from `WIDTHxHEIGHT[@REFRESH]`.
pub fn parse_mode_string(s: &str) -> (r: Result<ModeText, ModeError>)
    ensures
        match r {
            Ok(m) => mode_text(s@) == Ok::<_, ModeError>((m.width, m.height, match m.refresh {
                Some(t) => Some(t@),
                None => None,
            })),
            Err(e) => mode_text(s@) == Err::<(u16, u16, Option<Seq<char>>), _>(e),
        },
{
    let cs = chars_of(s);
    proof { lemma_first_index(cs@, '@'); }
    let (res, refresh) = match find_char(&cs, '@') {
        Some(at) => {
            let rate = slice_chars(&cs, at + 1, cs.len());
            assert(rate@ =~= cs@.skip(at + 1));
            if !float_literal_ok(&rate) {
                return Err(ModeError::InvalidRefresh);
            }
            let res = slice_chars(&cs, 0, at);
            assert(res@ =~= cs@.take(at as int));
            (res, Some(string_from_chars(&rate)))
        },
        None => (cs, None),
    };
    proof { lemma_first_index(res@, 'x'); }
    let x = match find_char(&res, 'x') {
        Some(x) => x,
        None => return Err(ModeError::InvalidFormat),
    };
    let rest = slice_chars(&res, x + 1, res.len());
    assert(rest@ =~= res@.skip(x + 1));
    if find_char(&rest, 'x').is_some() {
        return Err(ModeError::InvalidFormat);
    }
    let w_text = slice_chars(&res, 0, x);
    assert(w_text@ =~= res@.take(x as int));
    let width = match parse_unsigned(&w_text, 65535) {
        Some(w) => w as u16,
        None => return Err(ModeError::InvalidWidth),
    };
    let height = match parse_unsigned(&rest, 65535) {
        Some(h) => h as u16,
        None => return Err(ModeError::InvalidHeight),
    };
    Ok(ModeText { width, height, refresh })
}

} // verus!
