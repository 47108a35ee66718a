//! The catalog of a Spark Connect session: the requests through which a
//! client creates, drops, caches and queries databases, tables, views and
//! functions, and the reading of the boolean replies the server sends back.

pub mod catalog;
pub mod command;
pub mod laws;
pub mod reply;

pub use catalog::Catalog;
pub use command::{
    CatType, CatalogRelation, CatalogRequest, CreateExternalTable, CreateTable, Reply,
};
pub use reply::{arrow_to_bool, record_to_bool, ReplyBatch, SparkError};
