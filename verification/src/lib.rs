//! A registry of analyzed binary documents: an intermediate representation
//! of lifted programs, a translation pipeline that drives an external
//! optimizer and dead-code eliminator to a structural fixpoint, an address
//! resolver and symbol-call search, and a projection of every node onto a
//! self-describing external tree.
//!
//! - [`ir`] and [`program`] hold the representation and its views;
//! - [`eq`] decides the structural equality the fixpoint is defined by;
//! - [`pipeline`] states the collaborators' contracts and drives the
//!   elimination fixpoint; [`analysis`] holds a synthetic collaborator;
//! - [`document`] owns one program and its cross-reference index;
//! - [`store`] maps names to documents, last write winning;
//! - [`resolve`] answers address and symbol-call queries;
//! - [`json`], [`numfmt`] and [`project`] render the external grammar;
//! - [`api`] and [`error`] shape the remote calls and their failures.

pub mod analysis;
pub mod api;
pub mod document;
pub mod eq;
pub mod error;
pub mod ir;
pub mod json;
pub mod numfmt;
pub mod pipeline;
pub mod program;
pub mod project;
pub mod resolve;
pub mod store;
