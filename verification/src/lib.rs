//! Identity backend of a small directory/authentication service.
//!
//! The library holds the boolean filter algebra over equality predicates,
//! its compilation into a storage-query predicate, the rendering of that
//! predicate into SQL text through the `sea_query` builder, and the
//! credential-verification and directory-query logic of the backend
//! handler contract. Transport, connection pooling and the asynchronous
//! storage round trips live outside the library.

pub mod backend;
pub mod compile;
pub mod eval;
pub mod model;
pub mod sql;
