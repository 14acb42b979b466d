//! Renaming one file to a name picked from a list of candidates.
//!
//! The candidates come from the subdirectories of a base directory
//! (`resolver`), a cursor over them is moved and committed (`controller`),
//! and the commit is turned into a sibling rename with a reported outcome
//! (`executor`).
pub mod controller;
pub mod executor;
pub mod resolver;
