//! The records that the application keeps, and the statements that store
//! and fetch them.

pub mod projects;
pub mod query;
