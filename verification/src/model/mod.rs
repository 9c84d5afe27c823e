//! Plain data carried between clients, the distributor and the workers.

pub mod argument;
pub mod computing_result;
pub mod languages;
pub mod result;
pub mod result_with_worker;
pub mod task;
pub mod task_with_result;
pub mod worker;
