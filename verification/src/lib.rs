//! User-facing text and third-party payload handling for the Grok Build terminal client.

pub mod chat_messages;
pub mod diagnostics;
pub mod disk_usage;
pub mod doctor_format;
pub mod doctor_human;
pub mod endpoint_trust;
pub mod json;
pub mod locale;
pub mod mode_support;
pub mod models;
pub mod number;
pub mod release;
pub mod render;
pub mod share;
pub mod startup_failure;
pub mod tally;
pub mod text;
pub mod third_party;
pub mod version_mismatch;
pub mod worktree;
