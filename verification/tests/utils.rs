use yewuse::utils::dom_utils::styles_visible;
use yewuse::utils::use_async::AsyncState;
use yewuse::utils::use_event_listener::UseEventOptions;
use yewuse::utils::use_interval::TimerSlot;
use yewuse::utils::use_websocket::{
    join_protocols, UseWebSocketOptions, WebSocketMachine, WebSocketStatus, READY_STATE_CLOSED,
    READY_STATE_CONNECTING, READY_STATE_OPEN,
};

#[test]
fn async_state_queries() {
    let idle: AsyncState<i32, String> = AsyncState::default();
    assert!(idle.is_idle() && !idle.is_loading() && !idle.is_success() && !idle.is_error());
    let loading: AsyncState<i32, String> = AsyncState::Loading;
    assert!(loading.is_loading());
    let ok: AsyncState<i32, String> = AsyncState::finished(Ok(5));
    assert!(ok.is_success());
    assert_eq!(ok.value(), Some(&5));
    assert_eq!(ok.error(), None);
    let err: AsyncState<i32, String> = AsyncState::finished(Err("boom".to_string()));
    assert!(err.is_error());
    assert_eq!(err.error(), Some(&"boom".to_string()));
    assert_eq!(err.value(), None);
}

#[test]
fn event_options_defaults_and_passive() {
    let o = UseEventOptions::default();
    assert!(!o.capture && !o.once && !o.prevent_default && !o.stop_propagation && !o.composed);
    assert!(o.passive());
    let p = UseEventOptions { prevent_default: true, ..o };
    assert!(!p.passive());
}

#[test]
fn dom_visibility_from_styles() {
    assert!(styles_visible(Some("block".to_string()), Some("visible".to_string())));
    assert!(!styles_visible(Some("none".to_string()), Some("visible".to_string())));
    assert!(!styles_visible(Some("block".to_string()), Some("hidden".to_string())));
    assert!(styles_visible(None, None));
}

#[test]
fn timer_slot_schedule_and_reset() {
    let mut t = TimerSlot::new();
    let p = t.schedule(Some(1000));
    assert_eq!((p.cancel, p.schedule), (None, Some(1000)));
    assert_eq!(t.replace(11), None);
    let p = t.reset(Some(500));
    assert_eq!((p.cancel, p.schedule), (Some(11), Some(500)));
    t.replace(12);
    let p = t.reset(None);
    assert_eq!((p.cancel, p.schedule), (None, None));
    assert_eq!(t.handle, Some(12));
    let p = t.schedule(None);
    assert_eq!((p.cancel, p.schedule), (Some(12), None));
    assert_eq!(t.handle, None);
    t.replace(13);
    t.fired();
    assert_eq!(t.clear(), None);
}

#[test]
fn websocket_default_options_and_status() {
    let o = UseWebSocketOptions::default();
    assert!(o.auto_reconnect && o.immediate);
    assert_eq!(o.max_reconnect_attempts, Some(3));
    assert_eq!(o.reconnect_delay, 1000);
    assert_eq!(o.protocols, None);
    assert_eq!(WebSocketStatus::default(), WebSocketStatus::Closed);
}

#[test]
fn websocket_join_protocols() {
    assert_eq!(join_protocols(&vec![]), "");
    assert_eq!(join_protocols(&vec!["chat".to_string()]), "chat");
    assert_eq!(join_protocols(&vec!["a".to_string(), "b".to_string(), "c".to_string()]), "a,b,c");
}

#[test]
fn websocket_reconnects_at_most_max_times() {
    let o = UseWebSocketOptions::default();
    let mut m = WebSocketMachine::new(&o);
    assert!(!m.begin_connect(None));
    assert_eq!(m.status, WebSocketStatus::Connecting);
    m.opened();
    assert_eq!(m.status, WebSocketStatus::Open);
    let mut scheduled = 0;
    for _ in 0..10 {
        if m.closed().is_some() {
            scheduled += 1;
        }
        assert_eq!(m.status, WebSocketStatus::Closed);
    }
    assert_eq!(scheduled, 3);
    assert_eq!(m.reconnect_attempts, 3);
    m.opened();
    assert_eq!(m.reconnect_attempts, 0);
    assert_eq!(m.closed(), Some(1000));
}

#[test]
fn websocket_configure_keeps_state() {
    let mut m = WebSocketMachine::new(&UseWebSocketOptions::default());
    m.closed();
    assert_eq!(m.reconnect_attempts, 1);
    let o = UseWebSocketOptions { auto_reconnect: false, reconnect_delay: 5, ..UseWebSocketOptions::default() };
    m.configure(&o);
    assert_eq!(m.reconnect_attempts, 1);
    assert_eq!(m.status, WebSocketStatus::Closed);
    assert!(!m.auto_reconnect);
    assert_eq!(m.reconnect_delay, 5);
    assert_eq!(m.closed(), None);
}

#[test]
fn websocket_no_reconnect_when_disabled() {
    let o = UseWebSocketOptions { auto_reconnect: false, ..UseWebSocketOptions::default() };
    let mut m = WebSocketMachine::new(&o);
    assert_eq!(m.closed(), None);
    assert_eq!(m.reconnect_attempts, 0);
}

#[test]
fn websocket_errors_and_disconnect() {
    let mut m = WebSocketMachine::new(&UseWebSocketOptions::default());
    assert!(m.begin_connect(Some(READY_STATE_OPEN)));
    assert!(!m.begin_connect(Some(READY_STATE_CLOSED)));
    m.connection_failed("bad url");
    assert_eq!(m.status, WebSocketStatus::Error("Failed to create WebSocket: bad url".to_string()));
    m.errored();
    assert_eq!(m.status, WebSocketStatus::Error("WebSocket error occurred".to_string()));
    m.reconnect_failed();
    assert_eq!(m.status, WebSocketStatus::Error("Reconnection failed".to_string()));
    m.send_failed();
    assert_eq!(m.status, WebSocketStatus::Error("Failed to send message".to_string()));
    assert!(WebSocketMachine::can_send(Some(READY_STATE_OPEN)));
    assert!(!WebSocketMachine::can_send(Some(READY_STATE_CONNECTING)));
    assert!(!WebSocketMachine::can_send(None));
    m.reconnect_scheduled(21);
    let plan = m.disconnect(Some(READY_STATE_CONNECTING));
    assert_eq!(plan.clear_timer, Some(21));
    assert!(plan.close_socket);
    assert_eq!(m.status, WebSocketStatus::Closing);
    assert_eq!(m.reconnect_timer, None);
    let plan = m.disconnect(Some(READY_STATE_CLOSED));
    assert_eq!(plan.clear_timer, None);
    assert!(!plan.close_socket);
    let t = m.teardown(Some(READY_STATE_OPEN));
    assert!(t.close_socket);
    assert!(!m.teardown(Some(READY_STATE_CLOSED)).close_socket);
}
