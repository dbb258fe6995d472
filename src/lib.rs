//! A small web benchmark service: an integer-mixing kernel whose result is
//! fully specified, and the logic that builds the landing page.
pub mod kernel;
pub mod page;
