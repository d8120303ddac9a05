//! Decision logic of a GitHub App that fast-forward merges pull requests
//! when a checkbox in the app's own comment is ticked.

pub mod app_data;
pub mod config;
pub mod events;
pub mod fast_forward;
pub mod handlers;
pub mod messages;
