use niri_lua::values::{parse_mode_string, parse_transform, Transform};

#[test]
fn test_parse_mode_string() {
    let mode = parse_mode_string("1920x1080").unwrap();
    assert_eq!(mode.width, 1920);
    assert_eq!(mode.height, 1080);
    assert_eq!(mode.refresh.map(|r| r.parse::<f64>().unwrap()), None);

    let mode = parse_mode_string("1920x1080@60").unwrap();
    assert_eq!(mode.width, 1920);
    assert_eq!(mode.height, 1080);
    assert_eq!(mode.refresh.map(|r| r.parse::<f64>().unwrap()), Some(60.0));

    let mode = parse_mode_string("3840x2160@59.94").unwrap();
    assert_eq!(mode.width, 3840);
    assert_eq!(mode.height, 2160);
    assert_eq!(mode.refresh.map(|r| r.parse::<f64>().unwrap()), Some(59.94));
}

#[test]
fn test_parse_transform() {
    assert!(matches!(parse_transform("normal").unwrap(), Transform::Normal));
    assert!(matches!(parse_transform("90").unwrap(), Transform::_90));
    assert!(matches!(parse_transform("180").unwrap(), Transform::_180));
    assert!(matches!(parse_transform("270").unwrap(), Transform::_270));
    assert!(matches!(parse_transform("flipped").unwrap(), Transform::Flipped));
}
