//! Notification payloads that Codex hands to a user-configured program,
//! and the decisions around when such a program is started.
pub mod json;
pub mod protocol;
pub mod changes;
pub mod event;
pub mod legacy;
pub mod hook;
pub mod notifier;
pub mod properties;

