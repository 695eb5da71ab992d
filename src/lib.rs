//! The event-content model of a Matrix-style messaging protocol: schemas for event content
//! types, the compiler that turns a schema into its runtime artifacts, and the redaction
//! projection that those artifacts carry.

pub mod kind;
pub mod text;
pub mod schema;
pub mod compile;
pub mod content;
pub mod laws;
pub mod done;
pub mod unsigned;
pub mod knock;
