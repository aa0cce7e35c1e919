//! Transformation of decoded profile event records into storage-ready rows.
//!
//! An incoming event arrives as a structured, field-named document. The
//! library decodes it into a fully typed record, applies the one
//! normalization rule (a never-null device classification), stamps the
//! record with its queue position, and encodes the result as a single
//! field-named row ready for insertion, bundled with batch metadata.

pub mod encode;
pub mod json;
pub mod laws;
pub mod record;
pub mod transform;
pub mod uuid_field;
