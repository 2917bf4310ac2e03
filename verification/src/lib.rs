//! Order-management domain layer for a small restaurant service: a fixed
//! table registry, a seedable menu catalog, a per-table order ledger, and a
//! facade that enforces the cross-store invariants and maps outcomes to a
//! closed error taxonomy.

pub mod data_model;
pub mod domain_spec;
pub mod error;
pub mod laws;
pub mod menu_store;
pub mod order_store;
pub mod param_validation;
pub mod restaurant;
pub mod table_store;
