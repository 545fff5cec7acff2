//! Task lifecycle library: a task entity with a four-state lifecycle, an
//! external identifier scheme, and the repository logic that marshals tasks
//! to and from a partitioned key-value store.

pub mod api;
pub mod db;
pub mod model;
pub mod text;
