//! Holders that keep secret values out of logs, debug output and responses,
//! and wipe them from memory when they are dropped.

pub mod mask;
pub mod redact;
pub mod vault;
