//! Content-addressed package cache: naming rules, lookup decisions and
//! index discovery for a source-based package manager.
//!
//! Everything here works on plain values. Touching the disk, taking
//! directory locks and fetching remote sources is the caller's job; the
//! caller reports what happened and this crate decides what follows.

pub mod buildhash;
pub mod cache;
pub mod digest;
pub mod error;
pub mod indices;
pub mod layout;
pub mod lock;
pub mod name;
pub mod package;
pub mod paths;
pub mod plan;
pub mod resolution;
pub mod scaffold;
pub mod source;
pub mod version;
