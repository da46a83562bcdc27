//! Moves tabular data between storage backends: the portable schema, the
//! capability flags that drivers declare, the argument bundles checked against
//! them, and the choice of a transfer path.

pub mod args;
pub mod csv;
pub mod drivers;
pub mod engine;
pub mod error;
pub mod features;
pub mod if_exists;
pub mod locator;
pub mod schema;
pub mod text;
pub mod transfer;
