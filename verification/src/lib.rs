//! Decoder for security-advisory "updateinfo" feeds.
//!
//! The crate turns what a streaming XML reader reports about an advisory
//! document into a database of advisories and the packages each one patches.
//! The reader itself stays with the caller: a [`Decoder`] says which
//! operation it needs next and is handed the reader's answer, and
//! [`UpdateInfoDb::load_xml`] replays a whole session of such answers.

pub mod advisory;
pub mod db;
pub mod decoder;
pub mod event;
pub mod laws;
pub mod rpm;
pub mod severity;
pub mod text;

pub use advisory::{Field, UpdateInfo};
pub use db::UpdateInfoDb;
pub use decoder::{Decoder, Phase};
pub use event::{Attribute, Event, LoadError, Reply, Request};
pub use rpm::RpmInfo;
pub use severity::Severity;
