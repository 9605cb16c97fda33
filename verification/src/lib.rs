//! The decision core of a read-only client for a Hive metastore.
//!
//! The metastore answers over a Thrift connection. This crate holds everything
//! the client decides once an answer has arrived: whether a catalog record is a
//! base table or a view, how its field schemas become columns and partition
//! keys, and how a remote failure is classified. Every function here is
//! verified against a contract stated over the mathematical views of its
//! arguments.
//!
//! The connection itself is the caller's: it sends one request at a time,
//! waits for the reply and hands it to the function of [`client`] that belongs
//! to the request.

pub mod client;
pub mod error;
pub mod models;
pub mod record;
pub mod text;
pub mod translate;

pub use client::{
    exists_from_reply, names_from_reply, table_from_reply, try_table_from_reply,
};
pub use error::{ErrorView, HiveMetastoreError};
pub use models::{names_distinct, views_of, Column, FieldView, Partition, Table, TableView};
pub use record::{FieldSchema, StorageDescriptor, TableRecord};
pub use translate::{trans_field_schemas, FromFieldSchema};
