//! The course service: users, courses, instructors, enrollments,
//! assignments and submissions.
pub mod models;
pub mod store;
pub mod queries;
pub mod services;
pub mod laws;
