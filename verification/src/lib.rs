//! Avro schemas, from their text to a canonical form that can be
//! fingerprinted, one at a time or in batches in which a bad entry does not
//! fail the others.
pub mod avro;
pub mod batch;
pub mod document;
pub mod error;
pub mod json;
pub mod laws;
pub mod names;
pub mod schema;

pub use crate::batch::{fingerprint_raw_schema_list, translate_schemas};
pub use crate::error::{AvroError, FailureKind};
pub use crate::schema::{canonicalize, fingerprint_raw_schema, parse_str, translate_schema};
