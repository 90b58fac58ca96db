//! Ontology visualisation core: a directed multigraph of classes and
//! properties with identity-stable lookup, the construction of that graph
//! from a validated ontology, and the bookkeeping of a force-directed layout
//! run over it.
//!
//! Real quantities (coordinates, velocities, layout parameters) travel through
//! this crate as [`scalar::Scalar`] values, the binary64 encoding of a number.
//! The crate orders and classifies them but never does arithmetic on them:
//! the numeric kernel of the layout lives with the caller.

pub mod error;
pub mod graph;
pub mod layout;
pub mod ontology;
pub mod scalar;
pub mod text;

pub use error::VowlError;
