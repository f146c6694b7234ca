//! Two generators over a model of record declarations: a companion builder
//! for staged construction, and a structured debug representation with
//! per-field format patterns. Also a builder for a command record, written
//! out the way the builder generator lays it out.

mod command;
pub mod model;
pub mod annotation;
pub mod shape;
pub mod builder;
pub mod debug;
pub mod staged;
pub mod laws;

pub use command::{Command, CommandBuilder};
