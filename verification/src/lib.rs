//! Resolution of wire-format type signatures from XML introspection
//! documents of a D-Bus-style accessibility protocol.
//!
//! Given a parsed introspection document, an interface name, a member
//! (method or signal) name and, for signal arguments, an argument name,
//! the resolvers compute the single type signature that a correct
//! implementation of that member must produce, so that a test suite can
//! hold hand-written type representations against the protocol
//! definition.

pub mod laws;
pub mod lookup;
pub mod model;
pub mod query;
pub mod resolve;
pub mod zbus_api;

pub use model::Argument;
pub use model::Document;
pub use model::InterfaceDecl;
pub use model::MethodDecl;
pub use model::ResolveError;
pub use model::SignalDecl;
