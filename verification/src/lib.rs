//! Measures achievable memory-copy bandwidth: a buffer is copied in parallel
//! 1 MiB chunks across a bounded worker pool, trials are timed and averaged,
//! and the mean duration yields a throughput in bytes per second.

pub mod grid;
pub mod partition;
pub mod sampler;
pub mod table;
pub mod units;
