use ghostview::capture::{
    list_monitors, on_frame_arrived, on_frame_offered, spawn_error, start, CaptureControl,
    CaptureError, CaptureHandle, Listing, MonitorProbe, MonitorSurvey, Offered,
};

fn probe(name: Option<&str>, size: Option<(u32, u32)>, index: Option<u64>) -> MonitorProbe {
    MonitorProbe {
        name: name.map(|n| n.to_string()),
        width: size.map(|s| s.0),
        height: size.map(|s| s.1),
        system_index: index,
    }
}

#[test]
fn monitors_are_listed_in_order() {
    let survey = MonitorSurvey {
        monitors: vec![
            probe(Some("left"), Some((1920, 1080)), Some(1)),
            probe(None, None, Some(2)),
            probe(Some("dark"), Some((800, 600)), None),
        ],
        primary: Some(Some(2)),
    };
    let list = list_monitors(Ok(survey)).unwrap();
    assert_eq!(list.len(), 3);
    assert_eq!(list[0].index, 0);
    assert_eq!(list[0].name, "left");
    assert_eq!((list[0].width, list[0].height), (1920, 1080));
    assert!(!list[0].is_primary);
    assert_eq!(list[1].index, 1);
    assert_eq!(list[1].name, "Monitor 1");
    assert_eq!((list[1].width, list[1].height), (0, 0));
    assert!(list[1].is_primary);
    assert_eq!(list[2].name, "dark");
    assert!(!list[2].is_primary);
}

#[test]
fn without_a_primary_monitor_none_is_primary() {
    let survey = MonitorSurvey {
        monitors: vec![probe(None, None, None), probe(None, None, Some(0))],
        primary: None,
    };
    assert!(list_monitors(Ok(survey))
        .unwrap()
        .iter().all(|m| !m.is_primary));
    // If the system tells neither index, they count as the same.
    let survey = MonitorSurvey {
        monitors: vec![probe(None, None, None), probe(None, None, Some(0))],
        primary: Some(None),
    };
    let list = list_monitors(Ok(survey)).unwrap();
    assert!(list[0].is_primary);
    assert!(!list[1].is_primary);
}

#[test]
fn the_eleventh_monitor_has_a_name() {
    let monitors = (0..11).map(|_| probe(None, None, None)).collect();
    let list = list_monitors(Ok(MonitorSurvey {
        monitors,
        primary: None,
    }))
    .unwrap();
    assert_eq!(list[10].name, "Monitor 10");
}

#[test]
fn no_list_means_no_monitors() {
    assert!(list_monitors(Err(CaptureError::Failed("x".to_string())))
        .unwrap()
        .is_empty());
    let nothing = MonitorSurvey {
        monitors: vec![],
        primary: None,
    };
    assert!(list_monitors(Ok(nothing)).unwrap().is_empty());
}

#[test]
fn an_unsupported_platform_is_reported() {
    assert!(matches!(
        list_monitors(Err(CaptureError::UnsupportedPlatform)),
        Err(CaptureError::UnsupportedPlatform)
    ));
}

#[test]
fn the_monitor_to_capture() {
    assert_eq!(start(Listing::Monitors(vec!['a', 'b', 'c']), 1).unwrap(), 'b');
    match start(Listing::Monitors(vec!['a']), 1) {
        Err(e) => assert_eq!(e.message(), "monitor 1 not found"),
        Ok(_) => panic!("there is no such monitor"),
    }
    match start::<char>(Listing::Unsupported, 0) {
        Err(e) => assert_eq!(
            e.message(),
            "screen capture is not supported on this platform (Windows-only)"
        ),
        Ok(_) => panic!("there is nothing to capture"),
    }
    match start::<char>(Listing::Failed("E".to_string()), 0) {
        Err(e) => assert_eq!(e.message(), "capture failed: monitor enumerate: E"),
        Ok(_) => panic!("there is nothing to capture"),
    }
    assert_eq!(spawn_error("busy").message(), "capture failed: spawn: busy");
    assert_eq!(
        CaptureError::MonitorNotFound(120).message(),
        "monitor 120 not found"
    );
}

#[test]
fn a_capture_is_stopped_once() {
    let mut handle = CaptureHandle::new('c');
    assert_eq!(handle.stop(), Some('c'));
    assert_eq!(handle.stop(), None);
}

#[test]
fn a_slow_encoder_does_not_stop_the_capture() {
    assert_eq!(on_frame_arrived(false), CaptureControl::Continue);
    assert_eq!(on_frame_arrived(true), CaptureControl::Stop);
    assert_eq!(on_frame_offered(Offered::Taken), CaptureControl::Continue);
    assert_eq!(on_frame_offered(Offered::Full), CaptureControl::Continue);
    assert_eq!(on_frame_offered(Offered::Closed), CaptureControl::Stop);
}
