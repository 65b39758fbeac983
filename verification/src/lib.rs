//! Transcoding of a compiler's finished function bodies into a portable
//! schema, with the transcoding verified.
//!
//! `host` holds the compiler's representation as plain values, `mir_types`
//! the schema, `mir_view` the schema as mathematical values, `coherce` the
//! mapping from the first to the second, and `laws` what the mapping
//! guarantees. `collect` gathers the results of one compiler run, and
//! `driver` says what such a run is started with.
pub mod coherce;
pub mod collect;
pub mod driver;
pub mod host;
pub mod invariants;
pub mod laws;
pub mod mir_types;
pub mod mir_view;
pub mod narrow;
