//! Query execution core of a nearest-neighbour search gateway.
//!
//! A batch of query vectors is flattened and checked against the dimensionality
//! of the loaded index; the flat buffer goes to the search engine; the engine's
//! flat distance and label buffers are cut back into one result per query, with
//! empty slots dropped. Scores and vector components are carried through
//! unchanged, so their type is a parameter.
use vstd::prelude::*;

pub mod executor;
pub mod laws;
pub mod model;
pub mod results;
pub mod types;

pub use executor::{check_dimensions, flatten, prepare};
pub use results::{assemble, respond};
pub use types::{Neighbor, QueryBatch, QueryError, Response, SearchResult, SingleResult};
