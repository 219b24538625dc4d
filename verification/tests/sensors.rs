use yewuse::sensors::use_geolocation::{GeolocationError, GeolocationOptions, GeolocationTracker, PositionRequest};
use yewuse::sensors::use_keyboard::{
    is_combo_pressed, is_key_pressed, key_admitted, listened_key_events, KeyFilter, KeyModifiers, KeyboardState,
};
use yewuse::sensors::use_mouse_position::{EventType, MousePosition, PointerSample, PointerTracking};

fn mods() -> KeyModifiers {
    KeyModifiers { shift: true, ctrl: false, alt: false, meta: false }
}

#[test]
fn keyboard_press_and_release() {
    let mut s = KeyboardState::default();
    let e = s.key_down(&None, "a".to_string(), mods(), true, false);
    assert!(e.handled && e.prevent_default && !e.stop_propagation);
    assert!(is_key_pressed(&s, "a"));
    assert_eq!(s.last_key.as_deref(), Some("a"));
    assert!(s.shift_key);
    s.key_down(&None, "a".to_string(), mods(), false, false);
    assert_eq!(s.keys_pressed.len(), 1);
    s.key_down(&None, "Control".to_string(), mods(), false, false);
    assert!(is_combo_pressed(&s, &["a", "Control"]));
    assert!(!is_combo_pressed(&s, &["a", "b"]));
    assert!(is_combo_pressed(&s, &[]));
    s.key_up(&None, "a".to_string(), KeyModifiers { shift: false, ctrl: true, alt: false, meta: false }, false, false);
    assert!(!is_key_pressed(&s, "a"));
    assert!(is_key_pressed(&s, "Control"));
    assert!(s.ctrl_key && !s.shift_key);
    assert_eq!(s.last_key.as_deref(), Some("a"));
}

#[test]
fn keyboard_target_key_filter() {
    let mut s = KeyboardState::default();
    let target = Some("Enter".to_string());
    let e = s.key_down(&target, "a".to_string(), mods(), true, true);
    assert!(!e.handled && !e.prevent_default && !e.stop_propagation);
    assert!(s.keys_pressed.is_empty());
    assert_eq!(s.last_key, None);
    let e = s.key_down(&target, "Enter".to_string(), mods(), true, true);
    assert!(e.handled && e.prevent_default && e.stop_propagation);
    assert!(is_key_pressed(&s, "Enter"));
}

#[test]
fn key_filter_conversions() {
    assert_eq!(KeyFilter::from(""), KeyFilter::AnyKey);
    assert_eq!(KeyFilter::from(String::new()), KeyFilter::AnyKey);
    assert_eq!(KeyFilter::from("Enter"), KeyFilter::Keys(vec!["Enter".to_string()]));
    assert_eq!(KeyFilter::from("a".to_string()), KeyFilter::Keys(vec!["a".to_string()]));
    assert_eq!(KeyFilter::from(vec!["a", "b"]), KeyFilter::Keys(vec!["a".to_string(), "b".to_string()]));
    assert_eq!(KeyFilter::from(vec!["x".to_string()]), KeyFilter::Keys(vec!["x".to_string()]));
    assert_eq!(KeyFilter::from(Vec::<&str>::new()), KeyFilter::Keys(vec![]));
}

#[test]
fn key_filter_set_and_admission() {
    assert_eq!(KeyFilter::AnyKey.key_set(), None);
    let f = KeyFilter::Keys(vec!["a".to_string(), "b".to_string(), "a".to_string()]);
    assert_eq!(f.key_set(), Some(vec!["a".to_string(), "b".to_string()]));
    let set = f.key_set();
    assert!(key_admitted(&set, &"a".to_string()));
    assert!(!key_admitted(&set, &"c".to_string()));
    assert!(key_admitted(&None, &"c".to_string()));
}

#[test]
fn keyboard_listened_events() {
    let l = listened_key_events(&vec!["keydown".to_string()]);
    assert!(l.keydown && !l.keyup);
    let l = listened_key_events(&vec!["keyup".to_string(), "click".to_string(), "keydown".to_string()]);
    assert!(l.keydown && l.keyup);
    let l = listened_key_events(&vec![]);
    assert!(!l.keydown && !l.keyup);
}

#[test]
fn geolocation_error_codes() {
    assert_eq!(GeolocationError::from_code(1, "m".to_string()), GeolocationError::PermissionDenied("m".to_string()));
    assert_eq!(GeolocationError::from_code(2, "m".to_string()), GeolocationError::PositionUnavailable("m".to_string()));
    assert_eq!(GeolocationError::from_code(3, "m".to_string()), GeolocationError::Timeout("m".to_string()));
    assert_eq!(GeolocationError::from_code(9, "m".to_string()), GeolocationError::Other("m".to_string()));
}

#[test]
fn geolocation_request_flow() {
    let mut t = GeolocationTracker::new();
    assert_eq!(t.request(false, &GeolocationOptions::default()), PositionRequest::Skip);
    assert_eq!(t.error, Some(GeolocationError::Unsupported));
    assert!(!t.is_loading);
    assert_eq!(t.request(true, &GeolocationOptions::default()), PositionRequest::Once);
    assert!(t.is_loading);
    assert_eq!(t.error, None);
    t.position_received();
    assert!(!t.is_loading);
    t.request(true, &GeolocationOptions::default());
    t.error_received(1, "denied".to_string());
    assert!(!t.is_loading);
    assert_eq!(t.error, Some(GeolocationError::PermissionDenied("denied".to_string())));
}

#[test]
fn geolocation_single_watch() {
    let watch = GeolocationOptions { watch: true, ..GeolocationOptions::default() };
    let mut t = GeolocationTracker::new();
    assert_eq!(t.request(true, &watch), PositionRequest::Watch);
    t.watch_started(Some(4));
    assert_eq!(t.request(true, &watch), PositionRequest::Skip);
    assert_eq!(t.teardown(), Some(4));
    let mut u = GeolocationTracker::new();
    u.request(true, &watch);
    u.watch_started(None);
    assert!(!u.is_loading);
    assert_eq!(u.error, Some(GeolocationError::Other("Failed to watch position".to_string())));
}

fn sample(client_x: i32, client_y: i32, page_x: i32, page_y: i32) -> PointerSample {
    PointerSample { client_x, client_y, page_x, page_y }
}

fn client_only(x: i32, y: i32, page_x: i32, page_y: i32, source_type: EventType) -> MousePosition {
    MousePosition { x, y, element_x: None, element_y: None, page_x, page_y, source_type }
}

#[test]
fn pointer_tracking_handlers() {
    let t = PointerTracking::default_tracking();
    assert_eq!(t.on_mouse_move(sample(3, 4, 13, 14), None), Some(client_only(3, 4, 13, 14, EventType::Mouse)));
    assert_eq!(
        t.on_touch(Some(sample(5, 6, 15, 16)), Some((1, 1))),
        Some(client_only(5, 6, 15, 16, EventType::Touch))
    );
    assert_eq!(t.on_touch(None, None), None);
    assert_eq!(t.on_touch_end(), None);
    let only = PointerTracking { touch: true, reset_on_touch_ends: true, touch_only: true, relative_to_element: false };
    assert_eq!(only.on_mouse_move(sample(3, 4, 3, 4), None), None);
    assert_eq!(only.on_touch_end(), Some(client_only(0, 0, 0, 0, EventType::Touch)));
    let no_touch = PointerTracking { touch: false, reset_on_touch_ends: false, touch_only: false, relative_to_element: false };
    assert_eq!(no_touch.on_touch(Some(sample(1, 1, 1, 1)), None), None);
}

#[test]
fn mouse_position_initial_state() {
    let p = MousePosition::default();
    assert_eq!(p.x, 0);
    assert_eq!(p.y, 0);
    assert_eq!(p.element_x, None);
    assert_eq!(p.element_y, None);
    assert_eq!(p.page_x, 0);
    assert_eq!(p.page_y, 0);
    assert_eq!(p.source_type, EventType::Mouse);
}

#[test]
fn mouse_move_relative_to_element() {
    let t = PointerTracking { relative_to_element: true, ..PointerTracking::default_tracking() };
    let p = t.on_mouse_move(sample(50, 30, 150, 130), Some((10, 5))).unwrap();
    assert_eq!((p.x, p.y), (50, 30));
    assert_eq!((p.element_x, p.element_y), (Some(40), Some(25)));
    assert_eq!((p.page_x, p.page_y), (150, 130));
    assert_eq!(p.source_type, EventType::Mouse);
    // without the element's corner there is nothing to be relative to
    let p = t.on_mouse_move(sample(50, 30, 150, 130), None).unwrap();
    assert_eq!((p.element_x, p.element_y), (None, None));
    let p = t.on_touch(Some(sample(7, 9, 70, 90)), Some((10, 10))).unwrap();
    assert_eq!((p.element_x, p.element_y), (Some(-3), Some(-1)));
    assert_eq!(p.source_type, EventType::Touch);
}
