use touch_mux::codec::{decode_record, encode_record, pack_size_pressure, pack_xy, write_record};
use touch_mux::events::{gesture_number, touch_status_to_number, GestureEvent, TouchEvent,
    TouchStatus};
use touch_mux::geometry::{transform_xy, Screen, ScreenRotation};

fn sample_event() -> TouchEvent {
    TouchEvent {
        id: 5,
        status: TouchStatus::Pressed,
        x: 0x1234,
        y: 0x0203,
        size: None,
        pressure: Some(7),
    }
}

#[test]
fn status_codes_are_non_sequential() {
    assert_eq!(touch_status_to_number(&TouchStatus::Released), 0);
    assert_eq!(touch_status_to_number(&TouchStatus::Pressed), 1);
    assert_eq!(touch_status_to_number(&TouchStatus::Moved), 2);
    assert_eq!(touch_status_to_number(&TouchStatus::Unstarted), 3);
}

#[test]
fn gesture_ordinals_follow_declaration_order() {
    assert_eq!(gesture_number(&GestureEvent::SwipeUp), 1);
    assert_eq!(gesture_number(&GestureEvent::SwipeDown), 2);
    assert_eq!(gesture_number(&GestureEvent::SwipeLeft), 3);
    assert_eq!(gesture_number(&GestureEvent::SwipeRight), 4);
    assert_eq!(gesture_number(&GestureEvent::ZoomIn), 5);
    assert_eq!(gesture_number(&GestureEvent::ZoomOut), 6);
}

#[test]
fn rotation_composition() {
    assert_eq!(
        ScreenRotation::Rotated90.compose(ScreenRotation::Rotated90),
        ScreenRotation::Rotated180
    );
    assert_eq!(
        ScreenRotation::Rotated180.compose(ScreenRotation::Rotated180),
        ScreenRotation::Normal
    );
    assert_eq!(
        ScreenRotation::Rotated270.compose(ScreenRotation::Rotated90),
        ScreenRotation::Normal
    );
    assert_eq!(
        ScreenRotation::Normal.compose(ScreenRotation::Rotated270),
        ScreenRotation::Rotated270
    );
}

#[test]
fn offset_rotation_maps_raw_point() {
    // 240x320 screen lying in its normal orientation with a quarter-turn
    // offset configured: the point swaps into a 320x240 frame.
    let screen = Screen { width: 240, height: 320, rotation: ScreenRotation::Normal };
    let (x, y) = transform_xy(Some(screen), ScreenRotation::Rotated90, 10, 300);
    assert_eq!(x, 300);
    assert_eq!(y, 230);
}

#[test]
fn half_turn_twice_is_identity() {
    let screen = Screen { width: 240, height: 320, rotation: ScreenRotation::Rotated180 };
    let (x1, y1) = transform_xy(Some(screen), ScreenRotation::Normal, 17, 99);
    assert_eq!((x1, y1), (223, 221));
    let (x2, y2) = transform_xy(Some(screen), ScreenRotation::Normal, x1, y1);
    assert_eq!((x2, y2), (17, 99));
}

#[test]
fn no_screen_is_identity() {
    let (x, y) = transform_xy(None, ScreenRotation::Rotated270, 5, 7);
    assert_eq!((x, y), (5, 7));
}

#[test]
fn record_layout_is_exact() {
    let r = encode_record(&sample_event());
    assert_eq!(r, vec![5, 1, 0x12, 0x34, 0x02, 0x03, 0, 7]);
}

#[test]
fn record_round_trip_with_absent_fields() {
    let e = sample_event();
    let bytes = encode_record(&e);
    let d = decode_record(&bytes, 0);
    assert_eq!(d.id, 5);
    assert_eq!(d.status, 1);
    assert_eq!(d.x, 0x1234);
    assert_eq!(d.y, 0x0203);
    assert_eq!(d.size, 0);
    assert_eq!(d.pressure, 7);

    let e2 = TouchEvent {
        id: 200,
        status: TouchStatus::Moved,
        x: 65535,
        y: 0,
        size: Some(33),
        pressure: None,
    };
    let d2 = decode_record(&encode_record(&e2), 0);
    assert_eq!(d2.id, 200);
    assert_eq!(d2.status, 2);
    assert_eq!(d2.x, 65535);
    assert_eq!(d2.y, 0);
    assert_eq!(d2.size, 33);
    assert_eq!(d2.pressure, 0);
}

#[test]
fn write_record_touches_only_its_slot() {
    let mut buf = vec![0xAAu8; 24];
    write_record(&mut buf, 1, &sample_event());
    assert_eq!(&buf[0..8], &[0xAA; 8]);
    assert_eq!(&buf[8..16], &[5, 1, 0x12, 0x34, 0x02, 0x03, 0, 7]);
    assert_eq!(&buf[16..24], &[0xAA; 8]);
}

#[test]
fn packed_words() {
    assert_eq!(pack_xy(0x0012, 0x0034), 0x0012_0034);
    assert_eq!(pack_xy(300, 230), (300 << 16) | 230);
    assert_eq!(pack_size_pressure(Some(0x21), Some(0x43)), 0x0043_0021);
    assert_eq!(pack_size_pressure(None, Some(9)), 9 << 16);
    assert_eq!(pack_size_pressure(Some(4), None), 4);
    assert_eq!(pack_size_pressure(None, None), 0);
}
