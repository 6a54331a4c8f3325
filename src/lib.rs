//! Structured log events rendered as JSON lines or as terminal lines.

pub mod event;
pub mod text;
pub mod clock;
pub mod message;
pub mod json;
pub mod terminal;
