//! Verified core of two course-management web services.
//!
//! `course` and `voltron` each model their database as tables of rows
//! (`store`), find rows the way the services' queries do (`queries`),
//! decide each request as the answer plus the writes to perform
//! (`services`), and prove what the requests achieve together (`laws`).
//! `serial` gives the ids of tables with generated keys.

pub mod course;
pub mod selection;
pub mod serial;
pub mod voltron;
