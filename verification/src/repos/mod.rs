//! The repositories of the three relations, each with its access policy.

pub mod roles;
pub mod stocks;
pub mod warehouses;
