//! Client library for the Connected Papers graph service and the Semantic
//! Scholar graph API.
//!
//! [`session`] holds the protocol by which a paper's graph is retrieved from
//! Connected Papers: polling, back-off under overload, and carrying the last
//! known graph forward. The other modules build the requests of the
//! Semantic Scholar graph API: parameter builders, query strings and
//! addresses.
pub mod session;
pub mod text;
pub mod parse;
pub mod error;
pub mod date;
pub mod models;
pub mod query;
pub mod search;
pub mod relevance;
pub mod title;
pub mod bulk;
pub mod autocomplete;
pub mod paper_id;
pub mod batch;
pub mod graph;
pub mod client;

pub use error::{Error, Result};
pub use session::{GraphResponseType, GraphRetrievalSession};
