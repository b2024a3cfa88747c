//! The animation settings that a Lua table gives: an easing curve named by
//! its text, easing parameters over their defaults, the choice between a
//! spring and an easing, and the overrides of one animation. Coordinates,
//! damping and epsilon are floats, carried as `F` and read by the caller.
use vstd::prelude::*;
use crate::pending::{lowercase_of, lowercase_text};
use crate::text::str_eq;

verus! {

/// An easing curve.
pub enum Curve<F> {
    Linear,
    EaseOutQuad,
    EaseOutCubic,
    EaseOutExpo,
    CubicBezier(F, F, F, F),
}

/// The curve that a name gives (compared after lower-casing), if any.
pub open spec fn curve_named<F>(lower: Seq<char>) -> Option<Curve<F>> {
    if lower == "linear"@ {
        Some(Curve::Linear)
    } else if lower == "ease-out-quad"@ || lower == "ease_out_quad"@ {
        Some(Curve::EaseOutQuad)
    } else if lower == "ease-out-cubic"@ || lower == "ease_out_cubic"@ {
        Some(Curve::EaseOutCubic)
    } else if lower == "ease-out-expo"@ || lower == "ease_out_expo"@ {
        Some(Curve::EaseOutExpo)
    } else {
        None
    }
}

/// The `curve` value of an easing table, as the caller reads it from Lua: a
/// string, a table with its four coordinates when it has them (`x1`, or at
/// least four array items), or anything else.
pub enum CurveValue<F> {
    Name(String),
    Coordinates(Option<(F, F, F, F)>),
    Other,
}

/// The curve that a `curve` value gives.
pub open spec fn curve_of<F>(v: CurveValue<F>) -> Option<Curve<F>> {
    match v {
        CurveValue::Name(s) => curve_named(lowercase_text(s@)),
        CurveValue::Coordinates(Some((a, b, c, d))) => Some(Curve::CubicBezier(a, b, c, d)),
        _ => None,
    }
}

/// The curve that a `curve` value gives: a name in any letter case, with
/// `-` or `_` between its words, or four coordinates of a cubic Bézier curve.
pub fn parse_curve_value<F>(v: CurveValue<F>) -> (r: Option<Curve<F>>)
    ensures
        r == curve_of(v),
{
    match v {
        CurveValue::Name(s) => {
            let l = lowercase_of(s.as_str());
            if str_eq(l.as_str(), "linear") {
                Some(Curve::Linear)
            } else if str_eq(l.as_str(), "ease-out-quad") || str_eq(l.as_str(), "ease_out_quad") {
                Some(Curve::EaseOutQuad)
            } else if str_eq(l.as_str(), "ease-out-cubic") || str_eq(l.as_str(), "ease_out_cubic") {
                Some(Curve::EaseOutCubic)
            } else if str_eq(l.as_str(), "ease-out-expo") || str_eq(l.as_str(), "ease_out_expo") {
                Some(Curve::EaseOutExpo)
            } else {
                None
            }
        },
        CurveValue::Coordinates(Some((a, b, c, d))) => Some(Curve::CubicBezier(a, b, c, d)),
        _ => None,
    }
}

/// Easing parameters: a duration and a curve.
pub struct EasingParams<F> {
    pub duration_ms: u32,
    pub curve: Curve<F>,
}

/// The easing parameters that a table gives: `None` when it has neither a
/// duration nor a curve; otherwise 250 ms and `EaseOutCubic`, with what it
/// has in their place (the duration keeps its low 32 bits).
pub open spec fn easing_of<F>(duration_ms: Option<i64>, curve: Option<Curve<F>>) -> Option<EasingParams<F>> {
    if duration_ms is None && curve is None {
        None
    } else {
        Some(EasingParams {
            duration_ms: match duration_ms { Some(d) => d as u32, None => 250 },
            curve: match curve { Some(c) => c, None => Curve::EaseOutCubic },
        })
    }
}

/// The easing parameters of an easing table's `duration_ms` and curve.
pub fn easing_params<F>(duration_ms: Option<i64>, curve: Option<Curve<F>>) -> (r: Option<EasingParams<F>>)
    ensures
        r == easing_of(duration_ms, curve),
{
    if duration_ms.is_none() && curve.is_none() {
        return None;
    }
    let d: u32 = match duration_ms {
        Some(d) => d as u32,
        None => 250,
    };
    let c = match curve {
        Some(c) => c,
        None => Curve::EaseOutCubic,
    };
    Some(EasingParams { duration_ms: d, curve: c })
}

/// How an animation moves: by a spring or by an easing curve.
pub enum Kind<S, E> {
    Spring(S),
    Easing(E),
}

/// "cannot set both spring and easing parameters at once"
pub struct BothKinds;

impl BothKinds {
    /// The message that explains the error.
    pub fn message(&self) -> (r: &'static str)
        ensures
            r@ == "cannot set both spring and easing parameters at once"@,
    {
        "cannot set both spring and easing parameters at once"
    }
}

/// The kind that a table's spring and easing parameters give: an error when
/// it has both, the one it has, or none.
pub open spec fn kind_of<S, E>(spring: Option<S>, easing: Option<E>) -> Result<Option<Kind<S, E>>, BothKinds> {
    match (spring, easing) {
        (Some(_), Some(_)) => Err(BothKinds),
        (Some(s), None) => Ok(Some(Kind::Spring(s))),
        (None, Some(e)) => Ok(Some(Kind::Easing(e))),
        (None, None) => Ok(None),
    }
}

/// The kind that a table's spring and easing parameters give.
pub fn kind_from_params<S, E>(spring: Option<S>, easing: Option<E>) -> (r: Result<Option<Kind<S, E>>, BothKinds>)
    ensures
        r == kind_of(spring, easing),
{
    match (spring, easing) {
        (Some(_), Some(_)) => Err(BothKinds),
        (Some(s), None) => Ok(Some(Kind::Spring(s))),
        (None, Some(e)) => Ok(Some(Kind::Easing(e))),
        (None, None) => Ok(None),
    }
}

/// One animation: whether it is off, and how it moves.
pub struct Animation<K> {
    pub off: bool,
    pub kind: K,
}

/// An animation with a table's overrides: `None` when the table sets
/// neither `off` nor a kind; otherwise `base` with what it sets in place.
pub open spec fn overridden<K>(off: Option<bool>, kind: Option<K>, base: Animation<K>) -> Option<Animation<K>> {
    if off is None && kind is None {
        None
    } else {
        Some(Animation {
            off: match off { Some(o) => o, None => base.off },
            kind: match kind { Some(k) => k, None => base.kind },
        })
    }
}

/// Apply a table's `off` and kind to the animation `base`.
pub fn apply_animation_overrides<K>(off: Option<bool>, kind: Option<K>, base: Animation<K>) -> (r: Option<Animation<K>>)
    ensures
        r == overridden(off, kind, base),
{
    if off.is_none() && kind.is_none() {
        return None;
    }
    let o = match off {
        Some(o) => o,
        None => base.off,
    };
    let k = match kind {
        Some(k) => k,
        None => base.kind,
    };
    Some(Animation { off: o, kind: k })
}

} // verus!
