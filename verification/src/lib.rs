//! Core of a client for a remote graph-traversal server.
//!
//! A traversal is built with a fluent, statically typed builder that appends
//! wire-exact instructions to an append-only [`bytecode::Bytecode`] program,
//! and transport faults are turned into the closed error taxonomy of
//! [`error::GremlinError`].

pub mod bytecode;
pub mod conversion;
pub mod error;
pub mod step;
pub mod traversal;
pub mod value;

pub use bytecode::Bytecode;
pub use bytecode::Instruction;
pub use error::GremlinError;
pub use error::GremlinResult;
pub use traversal::GraphTraversal;
pub use traversal::TraversalStrategies;
pub use value::Edge;
pub use value::GValue;
pub use value::Vertex;
