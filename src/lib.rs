//! Core value model of RDF: nodes, terms, triples and quads, each in an owned
//! form and a borrowed form with total conversions between the two.
pub mod interchange;
pub mod laws;
pub mod primitives;
pub mod terms;
pub mod text;
pub mod triple;

pub use primitives::{BlankNode, BlankNodeRef, Literal, LiteralRef, NamedNode, NamedNodeRef};
pub use terms::{GraphName, GraphNameRef, NamedOrBlankNode, NamedOrBlankNodeRef, Term, TermRef};
pub use triple::{Quad, QuadRef, Triple, TripleRef};
