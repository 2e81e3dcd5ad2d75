//! A verified model of a CRUD service over a single table of financial
//! transactions.
//!
//! The library holds the whole request/response logic of the service: an
//! in-memory model of the `Transactions` table ([`store::TransactionStore`])
//! and the four request handlers ([`handlers`]) that create, read, update and
//! delete rows and map each outcome to an HTTP status code and body. Every
//! handler carries a contract that pins the resulting store and response down
//! exactly, and [`laws`] states and proves the service-level guarantees that
//! follow (read-after-create, update locality, idempotent delete, and so on).
//!
//! HTTP transport, JSON encoding and the shared-state plumbing live outside
//! the library; they hand the handlers plain values and pass the responses
//! back out.

pub mod handlers;
pub mod laws;
pub mod store;
pub mod transaction;
