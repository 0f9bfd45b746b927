//! A typed query-building and entity-mapping core.
//!
//! Entities describe tables, columns, primary keys and relations as ordinary
//! trait implementations; a `Select` builder assembles a dialect-agnostic
//! statement from those descriptors; the statement is rendered to SQL text by
//! the `sea_query` backend. Statement assembly — projections, filters, join
//! derivation, ordering, grouping, pagination bounds and the model /
//! active-model mapping — is verified; SQL text rendering and statement
//! execution belong to outside collaborators.

pub mod active_model;
pub mod backend;
pub mod entity;
pub mod error;
pub mod eval;
pub mod paginator;
pub mod query;
pub mod row;
pub mod statement;
pub mod tests_cfg;

pub use error::OrmError;
pub use statement::{ColRef, JoinExpr, JoinType, Order, OrderExpr, SelectExpr, SimpleExpr, Value};
