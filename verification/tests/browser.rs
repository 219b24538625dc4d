use yewuse::browser::use_breakpoints::{breakpoints_for_width, Breakpoints, UseBreakpointsOptions};
use yewuse::browser::use_clipboard::{ClipboardOutcome, ClipboardReadState, UseClipboardReturn};
use yewuse::browser::use_favicon::{favicon_href, UseFaviconOptions};
use yewuse::browser::use_idle::{IdleTracker, UseIdleOptions};
use yewuse::browser::use_local_storage::{start_from_storage, value_after_store};
use yewuse::browser::use_screen::{toggle_action, ScreenAction};

fn active(b: &Breakpoints) -> Vec<&'static str> {
    let mut v = Vec::new();
    if b.xs { v.push("xs"); }
    if b.sm { v.push("sm"); }
    if b.md { v.push("md"); }
    if b.lg { v.push("lg"); }
    if b.xl { v.push("xl"); }
    if b.xxl { v.push("xxl"); }
    v
}

#[test]
fn breakpoints_default_options() {
    let o = UseBreakpointsOptions::default();
    assert_eq!((o.xs, o.sm, o.md, o.lg, o.xl, o.xxl), (None, 576, 768, 992, 1200, 1400));
    assert!(o.custom.is_empty());
    let b = Breakpoints::default();
    assert!(active(&b).is_empty());
}

#[test]
fn breakpoints_exactly_one_standard_range() {
    let o = UseBreakpointsOptions::default();
    let cases = [(0, "xs"), (575, "xs"), (576, "sm"), (767, "sm"), (768, "md"), (991, "md"),
        (992, "lg"), (1199, "lg"), (1200, "xl"), (1399, "xl"), (1400, "xxl"), (5000, "xxl")];
    for (w, name) in cases {
        let b = breakpoints_for_width(w, &o);
        assert_eq!(active(&b), vec![name], "width {}", w);
    }
}

#[test]
fn breakpoints_xs_lower_bound() {
    let o = UseBreakpointsOptions { xs: Some(320), ..UseBreakpointsOptions::default() };
    assert!(active(&breakpoints_for_width(100, &o)).is_empty());
    assert_eq!(active(&breakpoints_for_width(320, &o)), vec!["xs"]);
}

#[test]
fn breakpoints_custom_values() {
    let o = UseBreakpointsOptions {
        custom: vec![("tablet".to_string(), 600), ("desktop".to_string(), 1024)],
        ..UseBreakpointsOptions::default()
    };
    let b = breakpoints_for_width(800, &o);
    assert_eq!(b.custom, vec![("tablet".to_string(), true), ("desktop".to_string(), false)]);
    let b = breakpoints_for_width(1024, &o);
    assert_eq!(b.custom, vec![("tablet".to_string(), true), ("desktop".to_string(), true)]);
    assert_ne!(b.custom[0].0, b.custom[1].0);
}

#[test]
fn breakpoints_custom_last_entry_for_a_name_wins() {
    let o = UseBreakpointsOptions {
        custom: vec![
            ("tablet".to_string(), 600),
            ("desktop".to_string(), 1024),
            ("tablet".to_string(), 900),
        ],
        ..UseBreakpointsOptions::default()
    };
    let b = breakpoints_for_width(800, &o);
    assert_eq!(b.custom, vec![("tablet".to_string(), false), ("desktop".to_string(), false)]);
    let b = breakpoints_for_width(950, &o);
    assert_eq!(b.custom, vec![("tablet".to_string(), true), ("desktop".to_string(), false)]);
}

#[test]
fn clipboard_default_and_initial() {
    let d = UseClipboardReturn::default();
    assert!(!d.is_supported && d.text.is_empty() && !d.copied && d.error.is_none());
    let s = UseClipboardReturn::initial(true, Some("hello".to_string()));
    assert!(s.is_supported);
    assert_eq!(s.text, "hello");
    assert!(!s.copied);
    assert_eq!(s.error, None);
    let s = UseClipboardReturn::initial(false, None);
    assert_eq!(s.text, "");
}

#[test]
fn clipboard_copy_outcomes() {
    let ok = UseClipboardReturn::after_copy("a".to_string(), ClipboardOutcome::Done);
    assert!(ok.is_supported && ok.copied && ok.error.is_none());
    assert_eq!(ok.text, "a");
    let failed = UseClipboardReturn::after_copy("b".to_string(), ClipboardOutcome::Failed("denied".to_string()));
    assert!(failed.is_supported && !failed.copied);
    assert_eq!(failed.error.as_deref(), Some("Failed to copy: denied"));
    let unsupported = UseClipboardReturn::after_copy("c".to_string(), ClipboardOutcome::Unsupported);
    assert!(!unsupported.is_supported && !unsupported.copied);
    assert_eq!(unsupported.error.as_deref(), Some("Clipboard API not supported"));
    assert_eq!(unsupported.text, "c");
}

#[test]
fn clipboard_read_outcomes() {
    let mut r = ClipboardReadState::new();
    r.after_read("x".to_string(), ClipboardOutcome::Done);
    assert_eq!(r.text, "x");
    assert_eq!(r.error, None);
    r.after_read(String::new(), ClipboardOutcome::Failed("nope".to_string()));
    assert_eq!(r.text, "x");
    assert_eq!(r.error.as_deref(), Some("Failed to read clipboard: nope"));
    r.after_read(String::new(), ClipboardOutcome::Unsupported);
    assert_eq!(r.error.as_deref(), Some("Clipboard API not supported"));
    r.after_read("y".to_string(), ClipboardOutcome::Done);
    assert_eq!(r.text, "y");
    assert_eq!(r.error, None);
}

#[test]
fn favicon_default_options() {
    let o = UseFaviconOptions::default();
    assert!(!o.force_refresh);
    assert!(o.base_url.is_none());
    assert_eq!(o.rel, "shortcut icon");
}

#[test]
fn favicon_href_composition() {
    let o = UseFaviconOptions::default();
    assert_eq!(favicon_href("icon.png", &o, "1"), "icon.png");
    let o = UseFaviconOptions { base_url: Some("https://cdn/".to_string()), ..UseFaviconOptions::default() };
    assert_eq!(favicon_href("icon.png", &o, "1"), "https://cdn/icon.png");
    let o = UseFaviconOptions { force_refresh: true, ..o };
    assert_eq!(favicon_href("icon.png", &o, "1700000000000"), "https://cdn/icon.png?v=1700000000000");
}

#[test]
fn idle_default_options() {
    let o = UseIdleOptions::default();
    assert_eq!(o.events, vec!["mousemove", "mousedown", "resize", "keydown", "touchstart", "wheel"]);
    assert!(!o.initial_state);
    assert_eq!(o.timeout, 60000);
}

#[test]
fn idle_tracker_transitions() {
    let o = UseIdleOptions { timeout: 5000, initial_state: true, ..UseIdleOptions::default() };
    let mut t = IdleTracker::new(&o);
    assert!(t.is_idle);
    let plan = t.activity();
    assert!(!t.is_idle);
    assert_eq!(plan.cancel, None);
    assert_eq!(plan.schedule, Some(5000));
    t.timer_started(7);
    let plan = t.activity();
    assert_eq!(plan.cancel, Some(7));
    t.timer_started(8);
    t.timed_out();
    assert!(t.is_idle);
    assert_eq!(t.teardown(), Some(8));
    assert_eq!(t.force_idle(), Some(8));
    assert!(t.is_idle);
    assert_eq!(t.teardown(), None);
}

#[test]
fn storage_start_and_store() {
    let s = start_from_storage(Some(42), 0);
    assert_eq!(s.value, 42);
    assert!(!s.write_default);
    let s = start_from_storage(None, 7);
    assert_eq!(s.value, 7);
    assert!(s.write_default);
    assert_eq!(value_after_store(1, 2, true), 2);
    assert_eq!(value_after_store(1, 2, false), 1);
}

#[test]
fn screen_toggle() {
    assert_eq!(toggle_action(true), ScreenAction::Exit);
    assert_eq!(toggle_action(false), ScreenAction::Enter);
}
