//! Task submission and status tracking for document extraction.
//!
//! A task is created by storing its document, then inserting its record as
//! `Starting`, then enqueueing its id, each step only after the previous one
//! succeeded. Workers advance a task's status by compare-and-set updates, and
//! owners poll it by id.

pub mod config;
pub mod ids;
pub mod laws;
pub mod queue;
pub mod repository;
pub mod service;
pub mod status;
pub mod store;
pub mod task;
