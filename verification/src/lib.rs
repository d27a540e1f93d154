//! A lightweight multi-version concurrency layer for an embedded analytical
//! SQL engine: one writer and many readers coexist without a lock manager.
//!
//! A logical database is identified by a base path. The file at the base path
//! itself is the *pointer record*: it names the currently latest snapshot.
//! Snapshot files live beside it, at the base path plus a unique suffix, and
//! are immutable once their writing session ends. Read sessions open whatever
//! snapshot the pointer names; write sessions build a brand-new snapshot and
//! publish its name when they close. Whichever writer publishes last wins;
//! earlier concurrent writers' work is silently superseded, by design.
//!
//! This crate holds the versioning logic itself — how snapshots are named,
//! how "latest" is resolved, and when a publish is owed — as verified code.
//! The caller performs the pointer-file reads and writes and the engine opens
//! that the returned plans call for.

pub mod connection;
pub mod lock;
pub mod meta_database;
