//! The voltron service: users, classes, groups, enrollments and password
//! resets.
pub mod models;
pub mod store;
pub mod queries;
pub mod services;
pub mod laws;
