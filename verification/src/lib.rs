//! Decision logic of a link-monitoring daemon.
//!
//! Three probes watch one internet connection: a latency test against a
//! content-delivery network, the status page of a cellular router, and an
//! external speed-test program. This crate holds everything those probes
//! decide: which requests to send, how replies are read, which metric samples
//! come out, and what a failure does to the loop that met it. Sockets, child
//! processes, timers and the metrics registry belong to the caller.

pub mod binary64;
pub mod cfspeedtest;
pub mod failure;
pub mod json;
pub mod metric;
pub mod nr5103e;
pub mod speedtestnet;
pub mod supervise;
pub mod text;
