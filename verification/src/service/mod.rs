//! The distributor's bookkeeping: tasks, workers and the decisions between them.

pub mod execute_utils;
pub mod health_check;
pub mod task_storage;
pub mod worker_distributer;
pub mod worker_distributor;
pub mod worker_register;
