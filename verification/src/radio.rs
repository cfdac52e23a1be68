use vstd::prelude::*;

use crate::errors::CliError;

verus! {

/// The device's wireless routing mode: `Pit` while idle/pairing, `Download`
/// while actively moving program data.
#[derive(Debug, Clone, Copy, PartialEq, Eq, Structural)]
pub enum RadioChannel {
    Pit,
    Download,
}

/// Bit 8 of the system-flags word is set when the link is tethered (wired).
pub const TETHERED_BIT: u32 = 0x100;

/// Milliseconds to wait after the channel-select request is acknowledged,
/// before the first status poll: the radio does not change instantaneously.
pub const SETTLE_DELAY_MS: u64 = 250;

/// Milliseconds between successive status polls while waiting for the switch.
pub const POLL_INTERVAL_MS: u64 = 250;

/// Overall deadline, in milliseconds, for the status to reflect the switch.
pub const CONVERGENCE_DEADLINE_MS: u64 = 5000;

/// Timeout, in milliseconds, of the channel-select handshake itself.
pub const SELECT_TIMEOUT_MS: u64 = 2000;

/// Retry budget of the channel-select handshake. Higher than other
/// operations because radio switches are more failure-prone.
pub const SELECT_RETRIES: u64 = 3;

/// Timeout, in milliseconds, of one wireless-status query.
pub const STATUS_TIMEOUT_MS: u64 = 500;

/// Retry budget of one wireless-status query.
pub const STATUS_RETRIES: u64 = 1;

/// A connection is wireless exactly when the product flags report a
/// controller-class connection and the tethered bit of the system flags is
/// clear.
pub open spec fn spec_is_wireless(controller: bool, system_flags: u32) -> bool {
    controller && system_flags & TETHERED_BIT == 0
}

/// Decides from a freshly queried status whether the connection runs over a
/// controller's wireless radio. A set tethered bit always wins over the
/// product flags.
pub fn is_wireless(controller: bool, system_flags: u32) -> (r: bool)
    ensures
        r == spec_is_wireless(controller, system_flags),
{
    controller && system_flags & TETHERED_BIT == 0
}

/// Phase of one channel negotiation, following the two-phase
/// request-then-poll-confirm pattern: the select acknowledgment only confirms
/// receipt, so a separate convergence poll is required.
#[derive(Debug, Clone, Copy, PartialEq, Eq, Structural)]
pub enum NegotiationPhase {
    /// The channel-select request still has to be sent.
    RequestPending,
    /// The request was acknowledged; the settle delay has to elapse before
    /// the first poll.
    Settling,
    /// The wireless status is being polled until it reflects the switch;
    /// `elapsed_ms` is the time spent polling so far.
    Polling { elapsed_ms: u64 },
    /// The status reflects the requested channel: negotiation succeeded.
    Converged,
    /// The link is wired, so there is no channel to negotiate: immediate
    /// success without any device request.
    SkippedWired,
    /// The deadline expired before the switch was observed.
    TimedOut,
}

/// One radio-channel negotiation in progress.
pub struct Negotiation {
    /// The channel being switched to.
    pub target: RadioChannel,
    /// Where the negotiation currently stands.
    pub phase: NegotiationPhase,
}

/// Phases in which the negotiation is over and the driver must stop.
pub open spec fn spec_phase_terminal(phase: NegotiationPhase) -> bool {
    match phase {
        NegotiationPhase::Converged => true,
        NegotiationPhase::SkippedWired => true,
        NegotiationPhase::TimedOut => true,
        _ => false,
    }
}

/// What one status poll does to the polling clock: a poll that observes the
/// switched status converges; any other outcome (including a transient poll
/// error, which counts as "not yet switched") advances the clock by one poll
/// interval and times out once the deadline is reached.
pub open spec fn spec_poll_step(elapsed_ms: u64, observed_switched: bool) -> NegotiationPhase {
    if observed_switched {
        NegotiationPhase::Converged
    } else if elapsed_ms + POLL_INTERVAL_MS >= CONVERGENCE_DEADLINE_MS {
        NegotiationPhase::TimedOut
    } else {
        NegotiationPhase::Polling { elapsed_ms: (elapsed_ms + POLL_INTERVAL_MS) as u64 }
    }
}

impl Negotiation {
    /// A negotiation state is well formed while its polling clock has not
    /// passed the deadline.
    pub open spec fn wf(self) -> bool {
        match self.phase {
            NegotiationPhase::Polling { elapsed_ms } => elapsed_ms < CONVERGENCE_DEADLINE_MS,
            _ => true,
        }
    }

    /// Begins a negotiation toward `target`, given a freshly queried wireless
    /// status. A wired link skips negotiation entirely; a wireless one owes
    /// the device a channel-select request.
    pub fn start(target: RadioChannel, wireless: bool) -> (m: Negotiation)
        ensures
            m.target == target,
            m.phase == if wireless {
                NegotiationPhase::RequestPending
            } else {
                NegotiationPhase::SkippedWired
            },
            m.wf(),
    {
        Negotiation {
            target,
            phase: if wireless {
                NegotiationPhase::RequestPending
            } else {
                NegotiationPhase::SkippedWired
            },
        }
    }

    /// Records that the channel-select request was sent and acknowledged;
    /// the settle delay comes next.
    pub fn request_sent(&mut self)
        requires
            old(self).phase == NegotiationPhase::RequestPending,
        ensures
            final(self).target == old(self).target,
            final(self).phase == NegotiationPhase::Settling,
            final(self).wf(),
    {
        self.phase = NegotiationPhase::Settling;
    }

    /// Records that the settle delay has elapsed; polling starts with a
    /// fresh clock.
    pub fn settled(&mut self)
        requires
            old(self).phase == NegotiationPhase::Settling,
        ensures
            final(self).target == old(self).target,
            final(self).phase == (NegotiationPhase::Polling { elapsed_ms: 0 }),
            final(self).wf(),
    {
        self.phase = NegotiationPhase::Polling { elapsed_ms: 0 };
    }

    /// Feeds the outcome of one status poll into the negotiation.
    /// `observed_switched` is the polled wireless status; a transient poll
    /// error must be fed as `false` (not yet switched), never aborted on.
    pub fn poll_observed(&mut self, observed_switched: bool)
        requires
            old(self).phase matches NegotiationPhase::Polling { .. },
            old(self).wf(),
        ensures
            final(self).target == old(self).target,
            final(self).phase == spec_poll_step(
                old(self).phase->elapsed_ms,
                observed_switched,
            ),
            final(self).wf(),
    {
        if observed_switched {
            self.phase = NegotiationPhase::Converged;
        } else {
            let elapsed_ms = match self.phase {
                NegotiationPhase::Polling { elapsed_ms } => elapsed_ms,
                _ => 0,
            };
            if elapsed_ms + POLL_INTERVAL_MS >= CONVERGENCE_DEADLINE_MS {
                self.phase = NegotiationPhase::TimedOut;
            } else {
                self.phase = NegotiationPhase::Polling {
                    elapsed_ms: elapsed_ms + POLL_INTERVAL_MS,
                };
            }
        }
    }

    /// Whether the negotiation is over.
    pub fn is_done(&self) -> (r: bool)
        ensures
            r == spec_phase_terminal(self.phase),
    {
        match self.phase {
            NegotiationPhase::Converged => true,
            NegotiationPhase::SkippedWired => true,
            NegotiationPhase::TimedOut => true,
            _ => false,
        }
    }

    /// The result of a finished negotiation: success on convergence or on a
    /// wired link, the timeout error when the deadline expired.
    pub fn outcome(&self) -> (r: Result<(), CliError>)
        requires
            spec_phase_terminal(self.phase),
        ensures
            r is Ok <==> self.phase != NegotiationPhase::TimedOut,
            self.phase == NegotiationPhase::TimedOut ==> r == Err::<(), CliError>(
                CliError::RadioChannelTimeout,
            ),
    {
        match self.phase {
            NegotiationPhase::TimedOut => Err(CliError::RadioChannelTimeout),
            _ => Ok(()),
        }
    }
}

/// The phase reached from `Polling { elapsed_ms }` after feeding the given
/// sequence of poll observations, stopping early at any terminal phase.
pub open spec fn spec_run_polls(elapsed_ms: u64, reports: Seq<bool>) -> NegotiationPhase
    decreases reports.len(),
{
    if reports.len() == 0 {
        NegotiationPhase::Polling { elapsed_ms }
    } else {
        match spec_poll_step(elapsed_ms, reports[0]) {
            NegotiationPhase::Polling { elapsed_ms: e } => spec_run_polls(e, reports.drop_first()),
            next => next,
        }
    }
}

proof fn lemma_converges_from(elapsed_ms: u64, reports: Seq<bool>, n: int)
    requires
        0 <= n < reports.len(),
        forall|i: int| 0 <= i < n ==> !reports[i],
        reports[n],
        elapsed_ms + n * POLL_INTERVAL_MS < CONVERGENCE_DEADLINE_MS,
    ensures
        spec_run_polls(elapsed_ms, reports) == NegotiationPhase::Converged,
    decreases n,
{
    if n == 0 {
    } else {
        assert(!reports[0]);
        lemma_converges_from((elapsed_ms + POLL_INTERVAL_MS) as u64, reports.drop_first(), n - 1);
    }
}

proof fn lemma_times_out_from(elapsed_ms: u64, reports: Seq<bool>)
    requires
        forall|i: int| 0 <= i < reports.len() ==> !reports[i],
        elapsed_ms < CONVERGENCE_DEADLINE_MS,
        elapsed_ms + reports.len() * POLL_INTERVAL_MS >= CONVERGENCE_DEADLINE_MS,
    ensures
        spec_run_polls(elapsed_ms, reports) == NegotiationPhase::TimedOut,
    decreases reports.len(),
{
    assert(reports.len() > 0);
    assert(!reports[0]);
    if elapsed_ms + POLL_INTERVAL_MS >= CONVERGENCE_DEADLINE_MS {
    } else {
        lemma_times_out_from((elapsed_ms + POLL_INTERVAL_MS) as u64, reports.drop_first());
    }
}

/// Convergence: polling starts with a fresh clock, and the device first
/// reports the switched status on poll `n`; as long as those `n` earlier
/// poll intervals fit strictly inside the deadline, the negotiation
/// converges.
pub proof fn lemma_negotiation_converges(reports: Seq<bool>, n: int)
    requires
        0 <= n < reports.len(),
        forall|i: int| 0 <= i < n ==> !reports[i],
        reports[n],
        n * POLL_INTERVAL_MS < CONVERGENCE_DEADLINE_MS,
    ensures
        spec_run_polls(0, reports) == NegotiationPhase::Converged,
{
    lemma_converges_from(0, reports, n);
}

/// Timeout: if no poll ever observes the switched status and enough polls
/// happen to fill the deadline, the negotiation ends in `TimedOut` — and, by
/// `spec_poll_step`, it does so only once the polling clock has reached the
/// deadline, never before.
pub proof fn lemma_negotiation_times_out(reports: Seq<bool>)
    requires
        forall|i: int| 0 <= i < reports.len() ==> !reports[i],
        reports.len() * POLL_INTERVAL_MS >= CONVERGENCE_DEADLINE_MS,
    ensures
        spec_run_polls(0, reports) == NegotiationPhase::TimedOut,
{
    lemma_times_out_from(0, reports);
}

/// On a wired connection, negotiation is an immediate success that never
/// issues a device request: `start` lands directly in the terminal
/// `SkippedWired` phase, which succeeds and is not the request-owing phase.
pub proof fn lemma_wired_negotiation_is_noop(m: Negotiation)
    requires
        m.phase == NegotiationPhase::SkippedWired,
    ensures
        spec_phase_terminal(m.phase),
        m.phase != NegotiationPhase::RequestPending,
        m.phase != NegotiationPhase::TimedOut,
{
}

/// A set tethered bit makes the connection non-wireless no matter what the
/// product flags say.
pub proof fn lemma_tethered_is_wired(controller: bool, system_flags: u32)
    requires
        system_flags & TETHERED_BIT != 0,
    ensures
        !spec_is_wireless(controller, system_flags),
{
}

} // verus!
