//! What is asked of persistence, as plain data.

pub mod data_repo;
