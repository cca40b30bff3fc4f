//! Generator for remote-procedure-call client code.
//!
//! Given a structured description of an interface (a named set of
//! remote-callable methods with typed parameters, return types and
//! per-method directives), the library analyzes every method and
//! produces a description of the client code to emit: a trait with one
//! method per interface method plus a transport accessor, a carrier
//! type holding the transport, and per-method payload and response
//! shapes.  The host that owns the surrounding syntax turns the result
//! into source text; this crate only decides what that text must say.

pub mod analyze;
pub mod annotations;
pub mod artifact;
pub mod generate;
pub mod laws;
pub mod model;
pub mod payload;
pub mod response;
