//! Access-controlled repositories for warehouses, their stock and the role
//! grants that guard them, over a small relational store.
//!
//! The store, the statements that drive it and the repositories on top of it
//! are executable and verified: every public function carries a contract over
//! the mathematical model of the data it touches.

pub mod acl;
pub mod connection;
pub mod controller;
pub mod decimal;
pub mod errors;
pub mod json;
pub mod laws;
pub mod models;
pub mod repo;
pub mod repos;
pub mod schema;
pub mod sequence;
pub mod services;
pub mod statement;
pub mod storage;
pub mod types;
pub mod value;
