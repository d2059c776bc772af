//! The request pipeline of a telemetry sink: configuration of the
//! concurrency, rate-limit, timeout and retry policies, the retry and
//! adaptive-concurrency decision logic, FIFO acknowledgement accounting,
//! and delivery-status propagation to event finalizers.

pub mod concurrency;
pub mod config;
pub mod raw;
pub mod controller;
pub mod limit;
pub mod acker;
pub mod finalization;
pub mod metadata;
pub mod retries;

pub use concurrency::{Concurrency, ConcurrencyOption};
pub use config::{TowerRequestConfig, TowerRequestLayer, TowerRequestSettings};
pub use metadata::{EventMetadata, WithMetadata};
