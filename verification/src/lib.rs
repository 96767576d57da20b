//! Asynchronous log-durability and apply-notification core of a Raft-style
//! consensus node.
//!
//! The consensus core stamps every in-flight persistence request with a
//! [`log_id::LogIOId`], hands the storage engine a one-shot completion handle
//! bound to that identity, and awaits the outcome on a dedicated notification
//! channel. This crate provides the identities, the one-shot handles for
//! flush and apply completions, the error values they carry, and the
//! epoch-tagged monotonic frontier the core uses to filter stale completions.

pub mod callback;
pub mod errors;
pub mod frontier;
pub mod log_id;
