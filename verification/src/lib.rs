//! Membership reconciliation for a community platform's verified status.
//!
//! Every member of a guild either holds the guild's verification role and a
//! single trailing marker glyph in their display name, or neither. The
//! library computes, for one member or a whole roster, the minimal set of
//! mutations (role grant, display-name rewrite) that converges the member to
//! the correct state, and keeps a durable per-guild cache of the
//! verification-role id, provisioned exactly once per guild.
//!
//! Platform I/O (fetching members, granting roles, renaming) is left to the
//! caller: the library turns observed state into a [`engine::Plan`] and the
//! caller applies it.

pub mod cache;
pub mod config;
pub mod dispatch;
pub mod engine;
pub mod scan;
