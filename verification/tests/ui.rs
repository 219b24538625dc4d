use yewuse::ui::use_click_outside::{click_is_outside, ClickTarget};
use yewuse::ui::use_element_size::UseElementSizeOptions;
use yewuse::ui::use_scroll_lock::{ScrollLock, StyleAction};
use yewuse::ui::use_scroll_to::ScrollBehavior;

fn assigned(a: &StyleAction) -> Option<String> {
    match a {
        StyleAction::Assign(s) => Some(s.clone()),
        _ => None,
    }
}

#[test]
fn scroll_behavior_keywords() {
    assert_eq!(ScrollBehavior::Auto.to_string(), "auto");
    assert_eq!(ScrollBehavior::Smooth.to_string(), "smooth");
    assert_eq!(ScrollBehavior::Instant.to_string(), "instant");
}

#[test]
fn scroll_lock_without_original_style() {
    let mut l = ScrollLock::new();
    let a = l.lock(None, "1024");
    assert!(l.is_locked);
    assert_eq!(
        assigned(&a).unwrap(),
        "overflow: hidden; position: fixed; top: 0; right: 0; bottom: 0; left: 0; width: 1024px;"
    );
    assert!(matches!(l.lock(None, "1"), StyleAction::Keep));
    assert!(matches!(l.unlock(), StyleAction::Remove));
    assert!(!l.is_locked);
    assert!(matches!(l.unlock(), StyleAction::Keep));
}

#[test]
fn scroll_lock_restores_original_style() {
    let mut l = ScrollLock::new();
    let a = l.toggle(Some("color: red".to_string()), "800");
    assert_eq!(
        assigned(&a).unwrap(),
        "color: red; overflow: hidden; position: fixed; top: 0; right: 0; bottom: 0; left: 0; width: 800px;"
    );
    let b = l.toggle(None, "800");
    assert_eq!(assigned(&b).unwrap(), "color: red");
    assert!(!l.is_locked);
}

#[test]
fn scroll_lock_empty_attribute_is_removed() {
    let mut l = ScrollLock::new();
    l.lock(Some(String::new()), "10");
    assert!(matches!(l.unlock(), StyleAction::Remove));
}

#[test]
fn click_outside_decision() {
    let outside = ClickTarget { contained: false, same: false };
    assert!(click_is_outside(true, Some(outside)));
    assert!(!click_is_outside(false, Some(outside)));
    assert!(!click_is_outside(true, None));
    assert!(!click_is_outside(true, Some(ClickTarget { contained: true, same: false })));
    assert!(!click_is_outside(true, Some(ClickTarget { contained: false, same: true })));
}

#[test]
fn element_size_default_options() {
    let o = UseElementSizeOptions::default();
    assert!(o.use_resize_observer && o.track_position && o.watch_window_resize);
}
