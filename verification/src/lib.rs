//! Turns a document of named namespaces, each a flat table of scalar
//! constants, into source text that declares those constants in Rust or in
//! JavaScript.
//!
//! A document comes from TOML text ([`source`]) or is put together by hand
//! ([`table`]). A generator ([`codegen`]) takes its namespaces one by one, in
//! Rust or in JavaScript, as blocks of one shared stream or as one file per
//! namespace; the driver ([`generate`]) runs it over a whole document and
//! stops at the first namespace that cannot be generated. What was made is
//! kept in the generator: writing it out is up to the caller.

pub mod codegen;
pub mod emit;
pub mod error;
pub mod generate;
pub mod language;
pub mod scalar;
pub mod source;
pub mod table;
