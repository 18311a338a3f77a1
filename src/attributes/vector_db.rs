//! Keys of vector database attributes.

use vstd::prelude::*;

verus! {

pub const PROVIDER: &'static str = "vector_db.provider";
pub const COLLECTION: &'static str = "vector_db.collection";
pub const OPERATION: &'static str = "vector_db.operation";
pub const DIMENSIONS: &'static str = "vector_db.dimensions";
pub const VECTOR_COUNT: &'static str = "vector_db.vector_count";
pub const QUERY_VECTOR_COUNT: &'static str = "vector_db.query_vector_count";
pub const RESULT_COUNT: &'static str = "vector_db.result_count";
pub const SIMILARITY_THRESHOLD: &'static str = "vector_db.similarity_threshold";
pub const FILTER: &'static str = "vector_db.filter";
pub const METADATA: &'static str = "vector_db.metadata";

} // verus!
