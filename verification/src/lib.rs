//! Serialized access to the platform's default folder icon.
//!
//! The platform handle that answers "what does the default folder icon look
//! like" is not safe to touch from two threads at once.  This crate owns that
//! handle behind a verified mutual-exclusion primitive, exposes a single
//! extract-and-encode operation, and proves the boundary contract around it:
//! how a snapshot of platform state becomes a transport-safe payload, and how
//! every failure is reported as a flat, displayable string.

pub mod adapter;
pub mod error;
pub mod guard;
pub mod icon;
