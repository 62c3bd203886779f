//! Resume validation, typesetting preparation and a time-bounded artifact store.
//!
//! - `validation` decodes an untyped JSON value into a `Resume`, or locates the
//!   first problem exactly.
//! - `transform` writes a resume as Typst source that embeds its JSON text.
//! - `generation` sequences the pipeline, names the output and delivers it.
//! - `storage` keeps generated artifacts for a fixed lifetime.
pub mod documents;
pub mod generation;
pub mod json;
pub mod storage;
pub mod text;
pub mod transform;
pub mod validation;
