//! Composable utilities for reactive web applications: the state machines,
//! rules and decisions behind each hook, with their contracts.
pub mod browser;
pub mod sensors;
pub mod state;
pub mod ui;
pub mod utils;
