//! Measurement protocol for publish/subscribe benchmarks: the probe payload
//! codec, the latency prober, the echo responder, the throughput counter and
//! the run life cycle, each with a machine-checked contract.

pub mod clock;
pub mod codec;
pub mod pending;
pub mod prober;
pub mod throughput;
pub mod driver;
pub mod responder;
pub mod config;
pub mod query;
pub mod overhead;
pub mod report;
