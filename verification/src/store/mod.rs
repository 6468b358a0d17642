//! The rules of the store: what the database and the audit log accept, in
//! plain values; the program runs the SQL around them.
pub mod audit;
pub mod backup;
pub mod batch;
pub mod graph;
pub mod idempotency;
pub mod jsonl;
pub mod leases;
pub mod query;
pub mod relations;
pub mod schema;
pub mod writes;
