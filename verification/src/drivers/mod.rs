//! Drivers: what is particular to one kind of backend.

pub mod bigquery_shared;
pub mod gs;
