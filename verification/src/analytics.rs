//! The analytics API: query validation, SQL text, and the assembly of its
//! responses from what the store returns.

pub mod activity;
pub mod errors;
pub mod handlers;
pub mod models;
pub mod queries;
pub mod response;
pub mod sql;
pub mod validation;
