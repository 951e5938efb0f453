//! A multi-column key/value store facade over an ordered embedded storage
//! engine. Logical columns are multiplexed onto physical segments of a single
//! engine instance; batches of writes are applied atomically through the
//! engine's fixed-arity transaction primitive.

pub mod db;
pub mod engine;
pub mod laws;
pub mod model;
pub mod ops;

pub use crate::db::Database;
pub use crate::db::DatabaseConfig;
pub use crate::db::DbIter;
pub use crate::db::DbError;
pub use crate::ops::DBOp;
pub use crate::ops::DBTransaction;
