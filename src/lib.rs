//! The protocol layer of an RDF graph server: SPARQL query and update
//! requests, and Graph Store HTTP Protocol access to single graphs.
//!
//! Every decision that turns a request into a response stands here, with its
//! contract. The store itself, the SPARQL engine and the HTTP server are
//! outside collaborators: the functions here either take what they returned
//! as arguments, or return the plan of store calls that a server runs.

mod text;

pub mod error;
pub mod format;
pub mod negotiate;
pub mod route;
pub mod target;
pub mod sparql;
pub mod store;
