//! A store of academic resources: validated author records on one side, and
//! on the other a graph store with a vector index, opened on one of several
//! storage engines.
use vstd::prelude::*;

pub mod text;
pub mod affiliation;
pub mod author;
pub mod engine;
pub mod schema;
pub mod manager;

pub use affiliation::Affiliation;
pub use author::{Author, AuthorBuilder, AuthorError, Name, NameBuilder, Orcid};
pub use engine::Engine;
pub use schema::{HNSW_INDEX, SCHEMA};
pub use manager::{AcademicResourceManager, InitError, Mutability, QueryError};

verus! {

} // verus!
