//! Voice-channel presence notifier: the decision logic.
//!
//! Given the voice state a member had before a gateway event and the one the
//! event carries, the library decides whether the member joined, left or moved
//! between voice channels, and renders the two messages that report it: a
//! human-readable notification and a fixed-format record. It also renders what
//! the process tells of itself: the build it runs and how long it has run.
//!
//! Nothing here talks to the gateway or posts a message: the functions take
//! plain values and return the messages to post.

pub mod model;
pub mod classify;
pub mod text;
pub mod notify;
pub mod record;
pub mod handler;
pub mod uptime;
pub mod deploy;
