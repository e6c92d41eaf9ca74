//! Mapping of Slice type references to the C# types that generated code declares for them.
//!
//! - [`grammar`] holds the types that are mapped: primitives, named definitions, sequences and
//!   dictionaries, and the references to them with their attributes.
//! - [`names`] writes the keyword of a primitive and the identifier of a definition as seen
//!   from a namespace.
//! - [`mapping`] writes the C# type of a reference for a field, a parameter, a returned value
//!   or an element of a collection, and tells value types from reference types.
//! - [`laws`] proves what holds of the mapping of every reference.

pub mod grammar;
pub mod laws;
pub mod mapping;
pub mod names;
