use touch_mux::events::{GestureEvent, TouchEvent, TouchStatus};
use touch_mux::geometry::{Screen, ScreenRotation};
use touch_mux::mux::{App, CommandReturn, ErrorCode, MultiTouchHardware, Touch, TouchHardware};

fn pressed(id: u8, x: u16, y: u16) -> TouchEvent {
    TouchEvent { id, status: TouchStatus::Pressed, x, y, size: None, pressure: None }
}

fn mux_with_multi_touch() -> Touch {
    let mut t = Touch::new(
        None,
        Some(MultiTouchHardware { enabled: false, num_touches: 2 }),
        None,
    );
    t.allocate_grant(0).unwrap();
    t
}

#[test]
fn default_app_state() {
    let a = App::default();
    assert!(a.ack);
    assert_eq!(a.dropped_events, 0);
    assert_eq!((a.x, a.y), (0, 0));
    assert_eq!(a.status, 3);
    assert!(!a.touch_enable);
    assert!(!a.multi_touch_enable);
    assert!(a.events_buffer.is_empty());
}

#[test]
fn grant_arena_allocates_in_order() {
    let mut t = Touch::new(None, None, None);
    assert_eq!(t.allocate_grant(0), Ok(()));
    assert_eq!(t.allocate_grant(0), Ok(()));
    assert_eq!(t.allocate_grant(2), Err(ErrorCode::Fail));
    assert_eq!(t.allocate_grant(1), Ok(()));
    assert_eq!(t.apps.len(), 2);
}

#[test]
fn enable_aggregation_is_or_of_flags() {
    let mut t = Touch::new(Some(TouchHardware { enabled: false }), None, None);
    t.allocate_grant(0).unwrap();
    t.allocate_grant(1).unwrap();

    // Enabling on process 0 while process 1 is disabled enables the hardware.
    assert_eq!(t.command(1, 0, 0, 0), CommandReturn::Success);
    assert_eq!(t.touch, Some(TouchHardware { enabled: true }));

    // Disabling on process 0 while process 1 is also disabled disables it.
    assert_eq!(t.command(2, 0, 0, 0), CommandReturn::Success);
    assert_eq!(t.touch, Some(TouchHardware { enabled: false }));

    // It stays disabled until some process re-enables.
    assert_eq!(t.command(2, 0, 0, 1), CommandReturn::Success);
    assert_eq!(t.touch, Some(TouchHardware { enabled: false }));
    assert_eq!(t.command(1, 0, 0, 1), CommandReturn::Success);
    assert_eq!(t.touch, Some(TouchHardware { enabled: true }));
}

#[test]
fn enable_without_hardware_reports_no_device() {
    let mut t = Touch::new(None, None, None);
    t.allocate_grant(0).unwrap();
    assert_eq!(t.touch_enable(), Err(ErrorCode::NoDevice));
    assert_eq!(t.multi_touch_enable(), Err(ErrorCode::NoDevice));
    // The command still succeeds: the process-visible flag was updated and
    // the hardware sync is best-effort.
    assert_eq!(t.command(1, 0, 0, 0), CommandReturn::Success);
    assert!(t.apps[0].touch_enable);
}

#[test]
fn command_surface_dispatch() {
    let mut t = Touch::new(None, None, None);
    assert_eq!(t.command(0, 0, 0, 0), CommandReturn::Success);
    assert_eq!(t.command(7, 0, 0, 0), CommandReturn::Failure(ErrorCode::NoSupport));
    assert_eq!(t.command(100, 0, 0, 0), CommandReturn::SuccessU32(0));

    let mut t1 = Touch::new(Some(TouchHardware { enabled: false }), None, None);
    assert_eq!(t1.command(100, 0, 0, 0), CommandReturn::SuccessU32(1));

    let mut t2 = mux_with_multi_touch();
    assert_eq!(t2.command(100, 0, 0, 0), CommandReturn::SuccessU32(2));
}

#[test]
fn command_for_absent_process_is_silent_noop() {
    let mut t = Touch::new(Some(TouchHardware { enabled: false }), None, None);
    t.allocate_grant(0).unwrap();
    assert_eq!(t.command(1, 0, 0, 9), CommandReturn::Success);
    assert!(!t.apps[0].touch_enable);
    assert_eq!(t.touch, Some(TouchHardware { enabled: false }));
}

#[test]
fn allow_buffer_swaps_and_fails() {
    let mut t = Touch::new(None, None, None);
    t.allocate_grant(0).unwrap();
    // No multi-touch hardware wired up: the slot is not supported.
    assert_eq!(t.allow_readwrite(0, 2, vec![1, 2, 3]), Err((vec![1, 2, 3], ErrorCode::NoSupport)));

    let mut m = mux_with_multi_touch();
    // Unknown slot.
    assert_eq!(m.allow_readwrite(0, 1, vec![9]), Err((vec![9], ErrorCode::NoSupport)));
    // Absent process gets its buffer back.
    assert_eq!(m.allow_readwrite(5, 2, vec![9]), Err((vec![9], ErrorCode::Fail)));
    // Swapping in returns the previous buffer, then swapping again returns ours.
    assert_eq!(m.allow_readwrite(0, 2, vec![7; 8]), Ok(vec![]));
    assert_eq!(m.allow_readwrite(0, 2, vec![]), Ok(vec![7; 8]));
}

#[test]
fn single_touch_dedup_and_rearm() {
    let mut t = Touch::new(None, None, None);
    t.allocate_grant(0).unwrap();

    let e = TouchEvent {
        id: 0,
        status: TouchStatus::Pressed,
        x: 10,
        y: 20,
        size: Some(3),
        pressure: Some(4),
    };
    let n1 = t.touch_event(e);
    assert_eq!(n1.len(), 1);
    assert_eq!(n1[0].process, 0);
    assert_eq!(n1[0].channel, 0);
    assert_eq!(n1[0].arg0, 1);
    assert_eq!(n1[0].arg1, (10 << 16) | 20);
    assert_eq!(n1[0].arg2, (4 << 16) | 3);

    // The identical sample again: deduplicated, nobody is notified.
    let n2 = t.touch_event(e);
    assert!(n2.is_empty());

    // One changed field re-arms the report.
    let moved = TouchEvent { y: 21, status: TouchStatus::Moved, ..e };
    let n3 = t.touch_event(moved);
    assert_eq!(n3.len(), 1);
    assert_eq!(n3[0].arg0, 2);
    assert_eq!(n3[0].arg1, (10 << 16) | 21);
}

#[test]
fn single_touch_fans_out_in_registration_order() {
    let mut t = Touch::new(None, None, None);
    t.allocate_grant(0).unwrap();
    t.allocate_grant(1).unwrap();
    let n = t.touch_event(pressed(0, 1, 2));
    assert_eq!(n.len(), 2);
    assert_eq!(n[0].process, 0);
    assert_eq!(n[1].process, 1);
    assert_eq!(t.apps[0].x, 1);
    assert_eq!(t.apps[1].y, 2);
}

#[test]
fn single_touch_applies_screen_rotation() {
    let mut t = Touch::new(
        None,
        None,
        Some(Screen { width: 240, height: 320, rotation: ScreenRotation::Normal }),
    );
    t.set_screen_rotation_offset(ScreenRotation::Rotated90);
    t.allocate_grant(0).unwrap();
    let n = t.touch_event(pressed(0, 10, 300));
    assert_eq!(n.len(), 1);
    assert_eq!(n[0].arg1, (300 << 16) | 230);
    assert_eq!((t.apps[0].x, t.apps[0].y), (300, 230));
}

#[test]
fn batch_delivery_truncates_and_spends_credit() {
    let mut t = mux_with_multi_touch();
    // Room for 3 records.
    t.allow_readwrite(0, 2, vec![0; 24]).unwrap();
    let events: Vec<TouchEvent> = (0..5).map(|i| pressed(i as u8, 100 + i, 200 + i)).collect();

    let n = t.touch_events(&events, 5);
    assert_eq!(n.len(), 1);
    assert_eq!(n[0].process, 0);
    assert_eq!(n[0].channel, 2);
    assert_eq!(n[0].arg0, 3); // delivered
    assert_eq!(n[0].arg1, 0); // none previously dropped
    assert_eq!(n[0].arg2, 2); // truncated
    assert!(!t.apps[0].ack);

    // The first three records were encoded, identity transform.
    let buf = &t.apps[0].events_buffer;
    for i in 0..3u16 {
        let o = (i as usize) * 8;
        let (x, y) = (100 + i, 200 + i);
        assert_eq!(
            &buf[o..o + 8],
            &[i as u8, 1, (x >> 8) as u8, (x & 0xFF) as u8, (y >> 8) as u8, (y & 0xFF) as u8, 0, 0]
        );
    }
}

#[test]
fn backpressure_counts_drops_until_ack() {
    let mut t = mux_with_multi_touch();
    t.allow_readwrite(0, 2, vec![0; 24]).unwrap();
    let events: Vec<TouchEvent> = (0..2).map(|i| pressed(i as u8, 10, 20 + i)).collect();

    assert_eq!(t.touch_events(&events, 2).len(), 1);
    assert!(!t.apps[0].ack);

    // Two more batches arrive before the process acknowledges: both are
    // skipped silently and counted.
    assert!(t.touch_events(&events, 2).is_empty());
    assert_eq!(t.apps[0].dropped_events, 1);
    assert!(t.touch_events(&events, 2).is_empty());
    assert_eq!(t.apps[0].dropped_events, 2);

    // The acknowledge command re-arms delivery; the next delivery reports
    // the dropped count and resets it.
    assert_eq!(t.command(10, 0, 0, 0), CommandReturn::Success);
    assert!(t.apps[0].ack);
    let n = t.touch_events(&events, 2);
    assert_eq!(n.len(), 1);
    assert_eq!(n[0].arg0, 2);
    assert_eq!(n[0].arg1, 2);
    assert_eq!(n[0].arg2, 0);
    assert_eq!(t.apps[0].dropped_events, 0);
}

#[test]
fn too_small_buffer_keeps_credit_and_sends_nothing() {
    let mut t = mux_with_multi_touch();
    t.allow_readwrite(0, 2, vec![0xEE; 7]).unwrap();
    let events = vec![pressed(0, 1, 2)];
    assert!(t.touch_events(&events, 1).is_empty());
    assert!(t.apps[0].ack);
    assert_eq!(t.apps[0].dropped_events, 0);
    assert_eq!(t.apps[0].events_buffer, vec![0xEE; 7]);
}

#[test]
fn batch_count_bound_caps_at_supplied_events() {
    let mut t = mux_with_multi_touch();
    t.allow_readwrite(0, 2, vec![0; 64]).unwrap();
    let events = vec![pressed(0, 1, 2), pressed(1, 3, 4)];
    // The count bound exceeds the events supplied: only those two count.
    let n = t.touch_events(&events, 9);
    assert_eq!(n[0].arg0, 2);
    assert_eq!(n[0].arg2, 0);
}

#[test]
fn batch_encoding_applies_screen_rotation() {
    let mut t = Touch::new(
        None,
        Some(MultiTouchHardware { enabled: false, num_touches: 2 }),
        Some(Screen { width: 240, height: 320, rotation: ScreenRotation::Normal }),
    );
    t.set_screen_rotation_offset(ScreenRotation::Rotated90);
    t.allocate_grant(0).unwrap();
    t.allow_readwrite(0, 2, vec![0; 8]).unwrap();
    let n = t.touch_events(&vec![pressed(1, 10, 300)], 1);
    assert_eq!(n.len(), 1);
    // (10, 300) maps to (300, 230) before encoding.
    assert_eq!(t.apps[0].events_buffer, vec![1, 1, 0x01, 0x2C, 0x00, 0xE6, 0, 0]);
}

#[test]
fn gestures_always_fan_out() {
    let mut t = Touch::new(None, None, None);
    t.allocate_grant(0).unwrap();
    t.allocate_grant(1).unwrap();
    let n = t.gesture_event(GestureEvent::ZoomOut);
    assert_eq!(n.len(), 2);
    for (i, notif) in n.iter().enumerate() {
        assert_eq!(notif.process, i);
        assert_eq!(notif.channel, 1);
        assert_eq!(notif.arg0, 6);
        assert_eq!((notif.arg1, notif.arg2), (0, 0));
    }
    // Gestures ignore backpressure: an un-acked process still hears them.
    let mut m = mux_with_multi_touch();
    m.allow_readwrite(0, 2, vec![0; 8]).unwrap();
    m.touch_events(&vec![pressed(0, 1, 2)], 1);
    assert!(!m.apps[0].ack);
    assert_eq!(m.gesture_event(GestureEvent::SwipeLeft).len(), 1);
}
