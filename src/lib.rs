//! Fund distribution and transaction execution engine for hardware-wallet
//! controlled accounts: address scanning, split planning, a transaction
//! queue with an explicit lifecycle, and the decisions of a signing manager.

pub mod text;
pub mod config;
pub mod device_errors;
pub mod types;
pub mod transaction;
pub mod units;
pub mod scan;
pub mod settings;
pub mod helpers;
pub mod async_job;
pub mod split;
pub mod receivers;
pub mod manager;
pub mod queue;
pub mod rerandomize;
pub mod bulk_input;
pub mod bulk_plan;
