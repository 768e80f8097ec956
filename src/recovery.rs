//! What the loss-detection subsystem hands to congestion control.
use vstd::prelude::*;

verus! {

/// A packet that was sent and is tracked until it is acknowledged or lost.
///
/// Timestamps are ticks of a monotonic clock chosen by the caller; only
/// their order matters here.
#[derive(Clone, Copy, Debug, PartialEq, Eq)]
pub struct Sent {
    pub pkt_num: u64,
    pub time: u64,
    pub size: usize,
    pub ack_eliciting: bool,
    pub in_flight: bool,
}

} // verus!
