//! Gathers diagnostic information about a user's environment, renders it as a
//! bug report, and drives the steps that hand the report to the user.

pub mod link;
pub mod probe;
pub mod report;
pub mod session;
pub mod text;
pub mod world;
