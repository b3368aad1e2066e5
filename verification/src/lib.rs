//! A minimal versioned, content-addressed record store for two entry kinds
//! (posts and comments), exposed through create/read/update/delete operations.
//!
//! A logically mutable record is represented as an immutable chain of
//! content-addressed actions: a `Create` action roots the chain, each `Update`
//! references its predecessor's address, and a `Delete` tombstones a point in
//! the chain without erasing history. The current state of a record is never
//! stored; it is re-derived by resolution from any action address.

pub mod chain;
pub mod comment;
pub mod data;
pub mod laws;
pub mod post;
pub mod resolver;
pub mod store;

pub use data::Post;
pub use data::Comment;
pub use data::Entry;
pub use data::Address;
pub use data::Action;
pub use data::StoredObject;
pub use data::StoredRecord;
