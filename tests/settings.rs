use shield::settings::{set_color, set_position, set_size, Color, Overrides, Settings};

#[test]
fn defaults() {
    let s = Settings::default();
    assert_eq!(s.size(), (300, 300));
    assert_eq!(s.position(), (0, 250));
    assert_eq!(s.background_color(), Color { r: 42, g: 40, b: 68, a: 220 });
    assert_eq!(s.foreground_color(), Color { r: 255, g: 255, b: 255, a: 150 });
}

#[test]
fn size_is_clamped() {
    let mut size = (300, 300);
    set_size(&mut size, Some(1000), Some(5));
    assert_eq!(size, (100, 400));
    set_size(&mut size, Some(-3), Some(9999));
    assert_eq!(size, (800, 40));
    set_size(&mut size, Some(120), None);
    assert_eq!(size, (800, 120));
    set_size(&mut size, None, Some(640));
    assert_eq!(size, (640, 120));
    set_size(&mut size, None, None);
    assert_eq!(size, (640, 120));
}

#[test]
fn position_keeps_y_non_negative() {
    let mut p = (0, 250);
    set_position(&mut p, Some(-20), Some(-5));
    assert_eq!(p, (-20, 0));
    set_position(&mut p, None, Some(12));
    assert_eq!(p, (-20, 12));
    set_position(&mut p, Some((1i64 << 32) + 7), None);
    assert_eq!(p, (i32::MAX, 12));
    set_position(&mut p, Some(-(1i64 << 40)), Some(2147483648));
    assert_eq!(p, (i32::MIN, i32::MAX));
    set_position(&mut p, None, Some(i64::MAX));
    assert_eq!(p, (i32::MIN, i32::MAX));
}

#[test]
fn color_takes_three_or_four_channels() {
    let mut c = Color::from_rgba8(1, 2, 3, 4);
    assert!(!set_color(&mut c, &Some(vec![Some(10), Some(20), Some(30)])));
    assert_eq!(c, Color { r: 10, g: 20, b: 30, a: 255 });
    assert!(!set_color(&mut c, &Some(vec![Some(256 + 9), None, Some(7), Some(128)])));
    assert_eq!(c, Color { r: 9, g: 0, b: 7, a: 128 });
    assert!(set_color(&mut c, &Some(vec![Some(1), Some(2)])));
    assert_eq!(c, Color { r: 9, g: 0, b: 7, a: 128 });
    assert!(!set_color(&mut c, &None));
    assert_eq!(c, Color { r: 9, g: 0, b: 7, a: 128 });
}

#[test]
fn overrides_apply_to_defaults() {
    let o = Overrides {
        height: Some(10),
        width: None,
        x: Some(4),
        y: None,
        background: Some(vec![Some(0), Some(0), Some(0), Some(0), Some(0)]),
        foreground: Some(vec![Some(1), Some(2), Some(3)]),
    };
    let (s, rejected) = Settings::new(&o);
    assert!(rejected);
    assert_eq!(s.size(), (300, 40));
    assert_eq!(s.position(), (4, 250));
    assert_eq!(s.background_color(), Color { r: 42, g: 40, b: 68, a: 220 });
    assert_eq!(s.foreground_color(), Color::from_rgb8(1, 2, 3));
}

#[test]
fn rendering_leaves_settings_alone() {
    let s = Settings::default();
    let mut engine = shield::engine::Engine::new(s.size());
    engine.ingest(shield::engine::Event::Render(String::from("42%")));
    engine.ingest(shield::engine::Event::<String>::Paint);
    assert_eq!(s.size(), (300, 300));
    assert_eq!(s.position(), (0, 250));
}

#[test]
fn load_reads_the_configuration() {
    let config = config::Config::builder()
        .set_override("frame.size.height", 1000)
        .unwrap()
        .set_override("frame.size.width", 640)
        .unwrap()
        .set_override("frame.position.y", -7)
        .unwrap()
        .set_override("color.background", vec![10, 20, 300])
        .unwrap()
        .set_override("color.foreground", vec![1, 2])
        .unwrap()
        .build()
        .unwrap();
    let (s, rejected) = Settings::load(&config);
    assert!(rejected);
    assert_eq!(s.size(), (640, 400));
    assert_eq!(s.position(), (0, 0));
    assert_eq!(s.background_color(), Color { r: 10, g: 20, b: 44, a: 255 });
    assert_eq!(s.foreground_color(), Color { r: 255, g: 255, b: 255, a: 150 });
}

#[test]
fn load_of_an_empty_configuration_gives_defaults() {
    let config = config::Config::builder().build().unwrap();
    let (s, rejected) = Settings::load(&config);
    assert!(!rejected);
    assert_eq!(s.size(), (300, 300));
    assert_eq!(s.position(), (0, 250));
}
