use shield::app::App;
use shield::engine::{Action, Engine, Event};
use shield::timer::Debounce;

#[test]
fn scenario_single_change_shows_then_hides() {
    let mut app: App<u32> = App::new();
    assert!(app.needs_session());
    let due = app.volume_changed(0, Some(7));
    assert_eq!(due, Some(750));
    assert_eq!(app.session(), Some(&7));

    let mut engine = Engine::new((300, 300));
    assert!(matches!(engine.ingest(Event::<String>::Configure), Action::ConfigureAndPresent { .. }));
    match engine.ingest(Event::Render(format!("{:.0}%", 0.42f32 * 100.0))) {
        Action::Render(scene) => assert_eq!(scene, "42%"),
        _ => panic!("the scene must be rendered"),
    }
    assert!(matches!(engine.ingest(Event::<String>::Paint), Action::Present));

    let mut timer = Debounce::new();
    timer.arm(due.unwrap());
    assert!(!timer.poll(749));
    assert!(timer.poll(750));

    let commands = app.show(String::from("42%"));
    assert_eq!(commands.len(), 2);
    assert!(matches!(&commands[0], Event::Render(s) if s == "42%"));
    assert!(matches!(commands[1], Event::Paint));
    assert!(app.sent::<String>(true).is_none());
    assert_eq!(app.session(), Some(&7));

    match app.dismiss::<String>() {
        Some((wire, Event::Terminate)) => assert_eq!(wire, 7),
        _ => panic!("the session must be handed back with Terminate"),
    }
    assert_eq!(app.session(), None);
    assert!(app.needs_session());
    assert!(matches!(engine.ingest(Event::<String>::Terminate), Action::Shutdown));
}

#[test]
fn scenario_two_changes_share_one_session() {
    let mut app: App<u32> = App::new();
    let mut timer = Debounce::new();
    let mut engine = Engine::new((300, 300));
    engine.ingest(Event::<String>::Configure);
    let mut rendered = Vec::new();

    let first = app.volume_changed(0, Some(1));
    assert_eq!(first, Some(750));
    timer.arm(first.unwrap());
    let mut sent = Vec::new();
    for ev in app.show(String::from("10%")) {
        sent.push(matches!(ev, Event::Paint));
        match engine.ingest(ev) {
            Action::Render(s) => rendered.push(s),
            Action::Present => rendered.push(String::from("paint")),
            _ => panic!("unexpected action"),
        }
    }
    assert!(!timer.poll(300));

    assert!(!app.needs_session());
    let second = app.volume_changed(300, None);
    assert_eq!(second, Some(1050));
    assert_eq!(app.session(), Some(&1));
    timer.arm(second.unwrap());
    for ev in app.show(String::from("20%")) {
        sent.push(matches!(ev, Event::Paint));
        match engine.ingest(ev) {
            Action::Render(s) => rendered.push(s),
            Action::Present => rendered.push(String::from("paint")),
            _ => panic!("unexpected action"),
        }
    }
    assert_eq!(rendered, vec!["10%", "paint", "20%", "paint"]);
    assert_eq!(sent, vec![false, true, false, true]);

    assert!(!timer.poll(750));
    assert!(!timer.poll(1049));
    assert!(timer.poll(1050));
    assert!(!timer.poll(5000));
    assert!(matches!(app.dismiss::<String>(), Some((1, Event::Terminate))));
}

#[test]
fn scenario_failed_construction_is_not_retained() {
    let mut app: App<u32> = App::new();
    assert!(app.needs_session());
    assert_eq!(app.volume_changed(0, None), None);
    assert_eq!(app.session(), None);
    assert!(app.needs_session());
    assert!(app.show(String::from("10%")).is_empty());

    assert_eq!(app.volume_changed(100, Some(3)), Some(850));
    assert_eq!(app.session(), Some(&3));
    assert_eq!(app.show(String::from("20%")).len(), 2);
}

#[test]
fn dismiss_without_session_does_nothing() {
    let mut app: App<u32> = App::new();
    assert!(app.dismiss::<String>().is_none());
    assert!(app.needs_session());
}

#[test]
fn broken_session_is_forgotten() {
    let mut app: App<u32> = App::new();
    assert_eq!(app.volume_changed(0, Some(4)), Some(750));
    assert!(matches!(app.sent::<String>(false), Some((4, Event::Terminate))));
    assert!(app.needs_session());
    assert_eq!(app.volume_changed(10, Some(5)), Some(760));
    assert_eq!(app.session(), Some(&5));
}

#[test]
fn deadline_saturates_at_clock_end() {
    let mut app: App<u32> = App::new();
    assert_eq!(app.volume_changed(u64::MAX - 1, Some(1)), Some(u64::MAX));
}
