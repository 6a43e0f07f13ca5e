//! Verified core of an event-analytics pipeline: the request validation,
//! routing, batching, retry and response-assembly rules of the ingestion
//! API, the workers and the analytics API.

pub mod analytics;
pub mod clickhouse_rows;
pub mod errors;
pub mod ids;
pub mod ingestion;
pub mod models;
pub mod text;
pub mod time;
pub mod validator;
pub mod workers;
