use shield::audio::{Sink, SinkError, Sinks, VOLUME_NORM};

fn sinks() -> Sinks {
    Sinks::new(vec![
        Sink { index: 0, volume: VOLUME_NORM },
        Sink { index: 3, volume: 0x8000 },
        Sink { index: 3, volume: 1 },
    ])
}

#[test]
fn switch_replaces_the_first_matching_sink() {
    let mut s = sinks();
    let change = s.switch(Sink { index: 3, volume: 0x4000 }).unwrap();
    assert_eq!(change.old, Sink { index: 3, volume: 0x8000 });
    assert_eq!(change.new, Sink { index: 3, volume: 0x4000 });
    assert!(change.volume_changed());
    assert_eq!(change.volume(), 0x4000);
    assert_eq!(s.len(), 3);

    let again = s.switch(Sink { index: 3, volume: 0x4000 }).unwrap();
    assert_eq!(again.old, Sink { index: 3, volume: 0x4000 });
    assert!(!again.volume_changed());
}

#[test]
fn switch_reports_unknown_sink() {
    let mut s = sinks();
    assert_eq!(s.switch(Sink { index: 9, volume: 5 }), Err(SinkError::NotFound(9)));
    assert_eq!(s.len(), 3);
    let empty = &mut Sinks::new(vec![]);
    assert_eq!(empty.switch(Sink { index: 0, volume: 5 }), Err(SinkError::NotFound(0)));
}
