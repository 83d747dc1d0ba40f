//! A policy evaluation engine: declarative compliance rules ("checks") are
//! evaluated against a semi-structured metadata document, and the engine
//! reports which named controls fail and why.

pub mod check;
pub mod engine;
pub mod laws;
pub mod pointer;
pub mod report;
pub mod value;

pub use check::Check;
pub use engine::{Control, PolicyEngine, Requirements, Validation};
pub use pointer::resolve;
pub use value::Value;
