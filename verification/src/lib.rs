//! Core of an interactive terminal browser for group conversations: the
//! selection state machine, on-demand detail loading, HTML-to-text rendering
//! with link extraction, and scroll/viewport arithmetic.
//!
//! Network transport, credential acquisition, the terminal driver and the
//! clipboard are collaborators outside this crate; they hand the core plain
//! values and take plain values back.

pub mod detail;
pub mod model;
pub mod render;
pub mod session;
pub mod sidebar;
pub mod text;
pub mod viewport;
