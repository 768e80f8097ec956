//! Loss-based congestion control: slow start, congestion avoidance and
//! multiplicative decrease on loss.
use vstd::prelude::*;

use crate::cc::{
    in_recovery, saturated, CongestionControl, CongestionState, INITIAL_WINDOW, LOSS_REDUCTION_DIVISOR,
    MAX_DATAGRAM_SIZE, MINIMUM_WINDOW,
};
use crate::recovery::Sent;

verus! {

/// The window after an acknowledgment of `size` bytes: slow start
/// (`cwnd < ssthresh`) grows it by the acknowledged size, congestion avoidance
/// by one datagram per window's worth of acknowledged bytes, truncated.
pub open spec fn grown_cwnd(cwnd: usize, ssthresh: usize, size: usize) -> usize {
    if cwnd < ssthresh {
        saturated(cwnd + size)
    } else {
        saturated(cwnd + (MAX_DATAGRAM_SIZE * size) / (cwnd as int))
    }
}

/// The window after a loss: halved, but never below the minimum window.
pub open spec fn reduced_cwnd(cwnd: usize) -> usize {
    let halved = cwnd / LOSS_REDUCTION_DIVISOR;
    if halved < MINIMUM_WINDOW {
        MINIMUM_WINDOW
    } else {
        halved
    }
}

/// In slow start an acknowledgment that is not suppressed takes the packet
/// out of flight and grows the window by exactly its size, unless that would
/// pass `usize::MAX`.
pub proof fn slow_start_grows_by_acked_size(s: CongestionState, packet: Sent)
    requires
        s.cwnd < s.ssthresh,
        !in_recovery(s.recovery_start_time, packet.time),
        packet.size <= s.bytes_in_flight,
        s.cwnd + packet.size <= usize::MAX,
    ensures
        s.after_acked(packet, grown_cwnd(s.cwnd, s.ssthresh, packet.size)) == (CongestionState {
            cwnd: (s.cwnd + packet.size) as usize,
            bytes_in_flight: (s.bytes_in_flight - packet.size) as usize,
            ..s
        }),
{
}

/// In congestion avoidance an acknowledgment that is not suppressed grows the
/// window by `MAX_DATAGRAM_SIZE * size / cwnd`, truncated, which is less than
/// the packet's size for any non-empty packet no larger than the window.
pub proof fn avoidance_grows_by_a_datagram_share(s: CongestionState, packet: Sent)
    requires
        s.cwnd >= s.ssthresh,
        s.ssthresh >= MINIMUM_WINDOW,
        !in_recovery(s.recovery_start_time, packet.time),
        packet.size <= s.bytes_in_flight,
        s.cwnd + (MAX_DATAGRAM_SIZE * packet.size) / (s.cwnd as int) <= usize::MAX,
    ensures
        s.after_acked(packet, grown_cwnd(s.cwnd, s.ssthresh, packet.size)).cwnd == s.cwnd + (
        MAX_DATAGRAM_SIZE * packet.size) / (s.cwnd as int),
        0 < packet.size <= s.cwnd ==> s.after_acked(
            packet,
            grown_cwnd(s.cwnd, s.ssthresh, packet.size),
        ).cwnd < s.cwnd + packet.size,
{
    lemma_avoidance_growth_bound(packet.size as int, s.cwnd as int);
}

/// A loss outside any recovery episode halves the window, but not below the
/// minimum window, makes the result the new threshold and starts an episode
/// at `now`.
pub proof fn loss_halves_window(s: CongestionState, time_sent: u64, now: u64)
    requires
        !in_recovery(s.recovery_start_time, time_sent),
    ensures
        s.after_loss(time_sent, now, reduced_cwnd(s.cwnd), reduced_cwnd(s.cwnd)) == (
        CongestionState {
            cwnd: if s.cwnd / 2 < MINIMUM_WINDOW {
                MINIMUM_WINDOW
            } else {
                (s.cwnd / 2) as usize
            },
            ssthresh: if s.cwnd / 2 < MINIMUM_WINDOW {
                MINIMUM_WINDOW
            } else {
                (s.cwnd / 2) as usize
            },
            recovery_start_time: Some(now),
            ..s
        }),
{
}

/// Reno congestion control state for one connection.
#[derive(Debug)]
pub struct Reno {
    congestion_window: usize,
    bytes_in_flight: usize,
    congestion_recovery_start_time: Option<u64>,
    ssthresh: usize,
}

impl Reno {
    /// The threshold never drops below the minimum window, so in congestion
    /// avoidance (`cwnd >= ssthresh`) the window is never zero.
    #[verifier::type_invariant]
    spec fn ssthresh_floor(&self) -> bool {
        self.ssthresh >= MINIMUM_WINDOW
    }
}

/// Congestion avoidance never grows the window by more than half the
/// acknowledged size.
proof fn lemma_avoidance_growth_bound(size: int, cwnd: int)
    requires
        size >= 0,
        cwnd >= MINIMUM_WINDOW,
    ensures
        (MAX_DATAGRAM_SIZE * size) / cwnd <= size / 2,
{
    let g = (MAX_DATAGRAM_SIZE * size) / cwnd;
    vstd::arithmetic::div_mod::lemma_fundamental_div_mod(MAX_DATAGRAM_SIZE * size, cwnd);
    vstd::arithmetic::div_mod::lemma_mod_bound(MAX_DATAGRAM_SIZE * size, cwnd);
    assert(g * cwnd <= MAX_DATAGRAM_SIZE * size);
    assert(g * 2 <= size) by (nonlinear_arith)
        requires
            g * cwnd <= 1452 * size,
            cwnd >= 2904,
            size >= 0,
    ;
}

impl CongestionControl for Reno {
    closed spec fn state(&self) -> CongestionState {
        CongestionState {
            cwnd: self.congestion_window,
            ssthresh: self.ssthresh,
            bytes_in_flight: self.bytes_in_flight,
            recovery_start_time: self.congestion_recovery_start_time,
        }
    }

    open spec fn spec_grown_cwnd(&self, size: usize) -> usize {
        grown_cwnd(self.state().cwnd, self.state().ssthresh, size)
    }

    open spec fn spec_reduced_cwnd(&self) -> usize {
        reduced_cwnd(self.state().cwnd)
    }

    open spec fn spec_reduced_ssthresh(&self) -> usize {
        reduced_cwnd(self.state().cwnd)
    }

    fn new() -> (r: Self)
        ensures
            r.state().cwnd == INITIAL_WINDOW,
    {
        Reno {
            congestion_window: INITIAL_WINDOW,
            bytes_in_flight: 0,
            congestion_recovery_start_time: None,
            ssthresh: usize::MAX,
        }
    }

    fn cwnd(&self) -> (r: usize) {
        self.congestion_window
    }

    fn set_cwnd(&mut self, cwnd: usize) {
        proof {
            use_type_invariant(&*self);
        }
        self.congestion_window = cwnd;
    }

    fn ssthresh(&self) -> (r: usize) {
        self.ssthresh
    }

    fn bytes_in_flight(&self) -> (r: usize) {
        self.bytes_in_flight
    }

    fn set_bytes_in_flight(&mut self, bytes_in_flight: usize) {
        proof {
            use_type_invariant(&*self);
        }
        self.bytes_in_flight = bytes_in_flight;
    }

    fn congestion_recovery_start_time(&self) -> (r: Option<u64>) {
        self.congestion_recovery_start_time
    }

    fn on_packet_sent_cc(&mut self, bytes_sent: usize, trace_id: &str) {
        proof {
            use_type_invariant(&*self);
        }
        self.bytes_in_flight = self.bytes_in_flight.saturating_add(bytes_sent);
    }

    fn on_packet_acked_cc(&mut self, packet: &Sent, trace_id: &str) {
        proof {
            use_type_invariant(&*self);
        }
        self.bytes_in_flight = self.bytes_in_flight - packet.size;

        if self.in_congestion_recovery(packet.time) {
            return;
        }

        if self.is_app_limited() {
            return;
        }

        if self.congestion_window < self.ssthresh {
            // Slow start.
            self.congestion_window = self.congestion_window.saturating_add(packet.size);
        } else {
            // Congestion avoidance.
            let cwnd = self.congestion_window;
            let growth = (MAX_DATAGRAM_SIZE as u128) * (packet.size as u128) / (cwnd as u128);
            proof {
                lemma_avoidance_growth_bound(packet.size as int, cwnd as int);
            }
            self.congestion_window = cwnd.saturating_add(growth as usize);
        }
    }

    fn congestion_event(&mut self, time_sent: u64, now: u64, trace_id: &str) {
        proof {
            use_type_invariant(&*self);
        }
        // Start a new recovery episode only for a packet sent after the
        // start of the current one.
        if !self.in_congestion_recovery(time_sent) {
            self.congestion_recovery_start_time = Some(now);

            self.congestion_window = self.congestion_window / LOSS_REDUCTION_DIVISOR;
            if self.congestion_window < MINIMUM_WINDOW {
                self.congestion_window = MINIMUM_WINDOW;
            }
            self.ssthresh = self.congestion_window;
        }
    }
}

} // verus!
