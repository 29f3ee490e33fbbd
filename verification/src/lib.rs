//! An embeddable encrypted-database execution service.
//!
//! Callers open named encrypted database handles, submit one SQL
//! statement per call, and receive results as a uniform JSON envelope,
//! either synchronously or through a caller-registered completion
//! callback. The registries, the statement classifier, the value
//! coercion pipeline, and the payload rendering are verified; the
//! database engine, the base64 encoder, and the JSON number renderer
//! are called through the trusted declarations in `ext`.

pub mod classify;
pub mod coerce;
pub mod envelope;
pub mod ext;
pub mod fib;
pub mod jobs;
pub mod jsontext;
pub mod laws;
pub mod registry;
