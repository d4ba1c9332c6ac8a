//! A record store for a roadmap planner: capabilities, systems, initiatives,
//! scenarios, resource pools, resources, constraints and financial periods,
//! each kept in a table keyed by id and listed in a fixed order.

pub mod text;
pub mod codec;
pub mod record;
pub mod table;
pub mod entities;
pub mod laws;
pub mod store;
