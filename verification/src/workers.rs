//! The workers: batching the events read from the broker per topic, turning
//! a batch into table rows, and the retry schedule of a failed flush.

pub mod batch;
pub mod retry;
