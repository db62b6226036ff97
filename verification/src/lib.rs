//! A layer-4 TCP load balancer core: target values, a pluggable selection
//! strategy with a round-robin reference implementation, and the
//! per-connection dispatch state machine. All I/O lives outside this crate;
//! the library makes every decision and proves it correct.

pub mod network;
pub mod strategy;
