//! Verified core of a ban-lifecycle service for a moderated community.
//!
//! A ban is imposed on an external entity (a character or a corporation),
//! carries an audit trail of who issued it and when, and ends either by a
//! pre-scheduled expiry or by an explicit manual revocation.  This crate
//! holds the lifecycle engine (create, amend, revoke), the query paths
//! (active set, per-entity history), and the classification of a ban
//! record as active, expired or revoked.  Transport and storage plumbing
//! live outside.

pub mod ban;
pub mod laws;
pub mod store;
