//! Congestion control for a single transport connection: a pluggable
//! capability, its algorithm registry and a loss-based Reno algorithm.

pub mod cc;
pub mod recovery;
