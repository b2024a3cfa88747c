use niri_lua::animations::{
    apply_animation_overrides, easing_params, kind_from_params, parse_curve_value, Animation, Curve, CurveValue, Kind,
};

fn name(s: &str) -> Option<Curve<f64>> {
    parse_curve_value(CurveValue::Name(s.to_string()))
}

#[test]
fn curve_names() {
    assert!(matches!(name("linear"), Some(Curve::Linear)));
    assert!(matches!(name("Ease-Out-Quad"), Some(Curve::EaseOutQuad)));
    assert!(matches!(name("ease_out_cubic"), Some(Curve::EaseOutCubic)));
    assert!(matches!(name("EASE-OUT-EXPO"), Some(Curve::EaseOutExpo)));
    assert!(name("bounce").is_none());
    assert!(matches!(
        parse_curve_value(CurveValue::Coordinates(Some((0.1, 0.2, 0.3, 0.4)))),
        Some(Curve::CubicBezier(a, _, _, d)) if a == 0.1 && d == 0.4
    ));
    assert!(parse_curve_value::<f64>(CurveValue::Coordinates(None)).is_none());
    assert!(parse_curve_value::<f64>(CurveValue::Other).is_none());
}

#[test]
fn easing_defaults() {
    assert!(easing_params::<f64>(None, None).is_none());
    let e = easing_params::<f64>(Some(150), None).unwrap();
    assert_eq!(e.duration_ms, 150);
    assert!(matches!(e.curve, Curve::EaseOutCubic));
    let e = easing_params(None, Some(Curve::<f64>::Linear)).unwrap();
    assert_eq!(e.duration_ms, 250);
    assert!(matches!(e.curve, Curve::Linear));
}

#[test]
fn spring_and_easing_exclude_each_other() {
    let both = kind_from_params(Some(1u8), Some(2u8));
    match both {
        Err(e) => assert_eq!(e.message(), "cannot set both spring and easing parameters at once"),
        Ok(_) => panic!("expected an error"),
    }
    assert!(matches!(kind_from_params::<u8, u8>(Some(1), None), Ok(Some(Kind::Spring(1)))));
    assert!(matches!(kind_from_params::<u8, u8>(None, Some(2)), Ok(Some(Kind::Easing(2)))));
    assert!(matches!(kind_from_params::<u8, u8>(None, None), Ok(None)));
}

#[test]
fn animation_overrides() {
    let base = || Animation { off: false, kind: 7u8 };
    assert!(apply_animation_overrides(None, None, base()).is_none());
    let a = apply_animation_overrides(Some(true), None, base()).unwrap();
    assert!(a.off && a.kind == 7);
    let a = apply_animation_overrides(None, Some(9), base()).unwrap();
    assert!(!a.off && a.kind == 9);
}
