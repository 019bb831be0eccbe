//! Codec generation for sum types: resolves the wire discriminant of every
//! variant of an enum declaration and lays out the encode and decode dispatch
//! that a visitor-based serialization framework calls.

pub mod variant_id;
pub mod schema;
pub mod text;
pub mod resolve;
pub mod serialize;
pub mod deserialize;
