//! The keyed codec: a command as a document of named fields, for
//! self-describing text formats.

pub mod de;
pub mod document;
pub mod error;
pub mod laws;
pub mod ser;
pub mod text;
