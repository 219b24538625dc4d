//! General utilities: asynchronous state, timers, event-listener options,
//! DOM helpers and the WebSocket connection state machine.
pub mod use_websocket;
pub mod use_interval;
pub mod dom_utils;
pub mod use_async;
pub mod use_event_listener;
