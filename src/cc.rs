//! The congestion-control capability and its algorithm registry.
use vstd::prelude::*;
use vstd::string::StringExecFns;

use crate::recovery::Sent;

pub mod reno;

verus! {

pub const INITIAL_WINDOW_PACKETS: usize = 10;

pub const MAX_DATAGRAM_SIZE: usize = 1452;

pub const INITIAL_WINDOW: usize = INITIAL_WINDOW_PACKETS * MAX_DATAGRAM_SIZE;

pub const MINIMUM_WINDOW: usize = 2 * MAX_DATAGRAM_SIZE;

/// A loss shrinks the window by this divisor (a reduction factor of one half).
pub const LOSS_REDUCTION_DIVISOR: usize = 2;

/// Whether a packet sent at `sent_time` belongs to the recovery episode that
/// started at `start`: the boundary is inclusive.
pub open spec fn in_recovery(start: Option<u64>, sent_time: u64) -> bool {
    match start {
        Some(t) => sent_time <= t,
        None => false,
    }
}

/// `x` clamped to what a `usize` holds.
pub open spec fn saturated(x: int) -> usize {
    if x > usize::MAX {
        usize::MAX
    } else if x < 0 {
        0
    } else {
        x as usize
    }
}

/// The state that congestion control keeps for one connection, as the
/// loss-detection subsystem sees it through the accessors.
#[derive(Clone, Copy, Debug, PartialEq, Eq, Structural)]
pub struct CongestionState {
    pub cwnd: usize,
    pub ssthresh: usize,
    pub bytes_in_flight: usize,
    pub recovery_start_time: Option<u64>,
}

impl CongestionState {
    /// This state with `bytes_sent` more bytes in flight, saturating at
    /// `usize::MAX`.
    pub open spec fn after_sent(self, bytes_sent: usize) -> CongestionState {
        CongestionState {
            bytes_in_flight: saturated(self.bytes_in_flight + bytes_sent),
            ..self
        }
    }

    /// This state once `packet` is acknowledged: out of flight, and the window
    /// set to `grown` unless the packet was sent within the current recovery
    /// episode.
    pub open spec fn after_acked(self, packet: Sent, grown: usize) -> CongestionState {
        CongestionState {
            bytes_in_flight: (self.bytes_in_flight - packet.size) as usize,
            cwnd: if in_recovery(self.recovery_start_time, packet.time) {
                self.cwnd
            } else {
                grown
            },
            ..self
        }
    }

    /// This state once the loss of a packet sent at `time_sent` is detected at
    /// `now`: unchanged if the packet was sent within the current recovery
    /// episode, else a new episode starts at `now` with the window and the
    /// threshold set to `cwnd` and `ssthresh`.
    pub open spec fn after_loss(
        self,
        time_sent: u64,
        now: u64,
        cwnd: usize,
        ssthresh: usize,
    ) -> CongestionState {
        if in_recovery(self.recovery_start_time, time_sent) {
            self
        } else {
            CongestionState { cwnd, ssthresh, recovery_start_time: Some(now), ..self }
        }
    }
}

/// Bytes reported sent accumulate: two sends add both sizes to what is in
/// flight, as long as the total fits in a `usize`.
pub proof fn sent_bytes_accumulate(s: CongestionState, first: usize, second: usize)
    requires
        s.bytes_in_flight + first + second <= usize::MAX,
    ensures
        s.after_sent(first).bytes_in_flight == s.bytes_in_flight + first,
        s.after_sent(first).after_sent(second).bytes_in_flight == s.bytes_in_flight + first
            + second,
        s.after_sent(first).after_sent(second).cwnd == s.cwnd,
        s.after_sent(first).after_sent(second).ssthresh == s.ssthresh,
{
}

/// A burst of losses reduces the window once: after a loss that starts a
/// recovery episode at `now`, the loss of any packet sent no later than `now`
/// changes nothing, whatever reduction the algorithm would apply.
pub proof fn loss_burst_reduces_once(
    s: CongestionState,
    time_sent: u64,
    now: u64,
    cwnd: usize,
    ssthresh: usize,
    later_time_sent: u64,
    later_now: u64,
    later_cwnd: usize,
    later_ssthresh: usize,
)
    requires
        !in_recovery(s.recovery_start_time, time_sent),
        later_time_sent <= now,
    ensures
        s.after_loss(time_sent, now, cwnd, ssthresh).recovery_start_time == Some(now),
        s.after_loss(time_sent, now, cwnd, ssthresh).after_loss(
            later_time_sent,
            later_now,
            later_cwnd,
            later_ssthresh,
        ) == s.after_loss(time_sent, now, cwnd, ssthresh),
{
}

/// The decimal digits of `n`, most significant first, without leading zeros.
pub open spec fn decimal(n: nat) -> Seq<char>
    decreases n,
{
    let digit = seq!['0', '1', '2', '3', '4', '5', '6', '7', '8', '9'][(n % 10) as int];
    if n < 10 {
        seq![digit]
    } else {
        decimal(n / 10).push(digit)
    }
}

/// How a state reads in diagnostics.
pub open spec fn state_text(s: CongestionState) -> Seq<char> {
    "cwnd="@ + decimal(s.cwnd as nat) + " ssthresh="@ + decimal(s.ssthresh as nat)
        + " bytes_in_flight="@ + decimal(s.bytes_in_flight as nat)
}

/// Relies on `usize`'s `Display`, through `to_string`: the decimal digits of
/// `n`.
#[verifier::external_body]
fn decimal_text(n: usize) -> (r: String)
    ensures
        r@ == decimal(n as nat),
{
    n.to_string()
}

/// The available congestion-control algorithms.
#[derive(Clone, Copy, Debug, PartialEq, Eq, Structural)]
pub enum Algorithm {
    /// Loss-based slow start and congestion avoidance; named "reno".
    Reno,
}

/// The capability that every congestion-control algorithm provides to the
/// loss-detection subsystem.
pub trait CongestionControl: Sized {
    spec fn state(&self) -> CongestionState;

    /// The window after an acknowledgment of `size` bytes whose growth is not
    /// suppressed.
    spec fn spec_grown_cwnd(&self, size: usize) -> usize;

    /// The window after a congestion event that starts a new recovery.
    spec fn spec_reduced_cwnd(&self) -> usize;

    /// The slow-start threshold after a congestion event that starts a new
    /// recovery.
    spec fn spec_reduced_ssthresh(&self) -> usize;

    fn new() -> (r: Self)
        ensures
            r.state().cwnd > 0,
            r.state().bytes_in_flight == 0,
            r.state().ssthresh == usize::MAX,
            r.state().recovery_start_time is None,
    ;

    fn cwnd(&self) -> (r: usize)
        ensures
            r == self.state().cwnd,
    ;

    fn set_cwnd(&mut self, cwnd: usize)
        ensures
            final(self).state() == (CongestionState { cwnd, ..old(self).state() }),
    ;

    fn ssthresh(&self) -> (r: usize)
        ensures
            r == self.state().ssthresh,
    ;

    fn bytes_in_flight(&self) -> (r: usize)
        ensures
            r == self.state().bytes_in_flight,
    ;

    fn set_bytes_in_flight(&mut self, bytes_in_flight: usize)
        ensures
            final(self).state() == (CongestionState { bytes_in_flight, ..old(self).state() }),
    ;

    fn congestion_recovery_start_time(&self) -> (r: Option<u64>)
        ensures
            r == self.state().recovery_start_time,
    ;

    /// The window, threshold and bytes in flight, for diagnostics.
    fn describe(&self) -> (r: String)
        ensures
            r@ == state_text(self.state()),
    {
        let mut text = String::from_str("cwnd=");
        let cwnd = decimal_text(self.cwnd());
        text.append(cwnd.as_str());
        text.append(" ssthresh=");
        let ssthresh = decimal_text(self.ssthresh());
        text.append(ssthresh.as_str());
        text.append(" bytes_in_flight=");
        let bytes_in_flight = decimal_text(self.bytes_in_flight());
        text.append(bytes_in_flight.as_str());
        text
    }

    /// Resets the window to its minimum, as after persistent congestion.
    fn collapse_cwnd(&mut self)
        ensures
            final(self).state() == (CongestionState { cwnd: MINIMUM_WINDOW, ..old(self).state() }),
    {
        self.set_cwnd(MINIMUM_WINDOW);
    }

    /// Counts `bytes_sent` more bytes in flight, saturating at `usize::MAX`.
    fn on_packet_sent_cc(&mut self, bytes_sent: usize, trace_id: &str)
        ensures
            final(self).state() == old(self).state().after_sent(bytes_sent),
    ;

    /// Whether a packet sent at `sent_time` was sent within the current
    /// recovery episode.
    fn in_congestion_recovery(&self, sent_time: u64) -> (r: bool)
        ensures
            r == in_recovery(self.state().recovery_start_time, sent_time),
    {
        match self.congestion_recovery_start_time() {
            Some(congestion_recovery_start_time) => sent_time <= congestion_recovery_start_time,
            None => false,
        }
    }

    /// Whether the sender is limited by the application rather than by the
    /// window. No detection is done: the answer is always no.
    fn is_app_limited(&self) -> (r: bool)
        ensures
            !r,
    {
        false
    }

    /// Takes an acknowledged packet out of flight and, unless it was sent
    /// within the current recovery episode, grows the window.
    fn on_packet_acked_cc(&mut self, packet: &Sent, trace_id: &str)
        requires
            packet.size <= old(self).state().bytes_in_flight,
        ensures
            final(self).state() == old(self).state().after_acked(
                *packet,
                old(self).spec_grown_cwnd(packet.size),
            ),
    ;

    /// Reacts to the loss of a packet sent at `time_sent`, detected at `now`.
    /// A loss of a packet sent within the current recovery episode changes
    /// nothing; any other starts a new episode at `now` and shrinks the window.
    fn congestion_event(&mut self, time_sent: u64, now: u64, trace_id: &str)
        ensures
            final(self).state() == old(self).state().after_loss(
                time_sent,
                now,
                old(self).spec_reduced_cwnd(),
                old(self).spec_reduced_ssthresh(),
            ),
    ;
}

/// A freshly initialised instance of the algorithm `algo`.
pub fn new_congestion_control(algo: Algorithm) -> (r: impl CongestionControl)
    ensures
        r.state() == (CongestionState {
            cwnd: INITIAL_WINDOW,
            ssthresh: usize::MAX,
            bytes_in_flight: 0,
            recovery_start_time: None,
        }),
{
    match algo {
        Algorithm::Reno => reno::Reno::new(),
    }
}

/// The algorithm a configuration name selects. Unknown names fall back to
/// the default algorithm instead of failing.
pub fn lookup_cc_algorithm(name: &str) -> (r: Algorithm)
    ensures
        r == Algorithm::Reno,
{
    Algorithm::Reno
}

} // verus!
