//! Event data de/serialization for the event data model.
//!
//! An event travels as a JSON array of six cells: the subject, the begin and
//! the end of its time, a domain tag, a list of concepts, and a context. The
//! context is an object that names the subject and the time again, carries
//! the facts of one domain, and may bring two attachments along. This crate
//! decodes such records into typed values and encodes them again, handing
//! back what it does not look into exactly as it was read.
//!
//! The work is split in three.
//!
//! - [`json`] asks `serde_json` what a text holds and how a string is
//!   written. What it is told is taken on trust and only named.
//! - [`tree`] puts the answers together into a JSON value that keeps its
//!   own text, read down to a given depth.
//! - [`leaves`], [`dispatch`] and [`envelope`] hold the schema: for each
//!   type of [`types`] and [`facts`] a decoder from a JSON value and an
//!   encoder to text, each with a model that says what it returns.
//!
//! [`sede`] has the two entry points, and [`laws`] what is proved of
//! decoders and encoders together.

pub mod dispatch;
pub mod envelope;
pub mod error;
pub mod facts;
pub mod json;
pub mod laws;
pub mod leaves;
pub mod members;
pub mod parts;
pub mod sede;
pub mod tags;
pub mod text;
pub mod tree;
pub mod types;
