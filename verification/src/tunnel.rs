//! The lifecycle of one tunnel, from accepted request to logged outcome.
//!
//! Only an accepted request yields a [`TunnelPlan`], and only a plan starts
//! a [`Supervisor`] — so no outbound connection is ever planned for a
//! rejected request. The supervisor owns the sequence of one tunnel: wait
//! for the client connection to be upgraded to a raw stream, dial the
//! destination, run the relay, and classify the outcome for the log. Each
//! step tells the surrounding I/O loop what to do next; a failure at any
//! step ends the tunnel and closes whatever was opened, and never escapes
//! to affect another tunnel or the server.

use vstd::prelude::*;

use crate::admission::{Decision, DecisionModel};
use crate::relay::RelayResult;

verus! {

/// The one piece of state an accepted tunnel starts from: the authority to
/// dial, exactly as the request carried it.
#[derive(Debug, PartialEq, Eq)]
pub struct TunnelPlan {
    pub target: Vec<u8>,
}

/// The dial target a decision yields: the accepted authority, or nothing
/// for a rejection.
pub open spec fn plan_model(d: DecisionModel) -> Option<Seq<u8>> {
    match d {
        DecisionModel::Accept { target } => Some(target),
        DecisionModel::Reject { .. } => None,
    }
}

impl TunnelPlan {
    /// Turns a decision into a plan: a plan exists exactly for an accepted
    /// request, and carries its authority unchanged.
    pub fn from_decision(d: Decision) -> (r: Option<TunnelPlan>)
        ensures
            match r {
                Some(p) => plan_model(d@) == Some(p.target@),
                None => plan_model(d@) is None,
            },
    {
        match d {
            Decision::Accepted { target } => Some(TunnelPlan { target }),
            Decision::Rejected { .. } => None,
        }
    }
}

/// Law: a rejected request never yields a dial target, so no outbound
/// connection is attempted for it.
pub proof fn lemma_rejected_never_dials(d: DecisionModel)
    requires
        d is Reject,
    ensures
        plan_model(d) is None,
{
}

/// Where one tunnel stands in its lifecycle.
#[derive(Clone, Copy, PartialEq, Eq, Structural, Debug)]
pub enum TunnelPhase {
    /// Waiting for the client connection to become a raw stream.
    AwaitUpgrade,
    /// Waiting for the outbound connection to the destination.
    Connecting,
    /// Both streams live; the relay is running.
    Relaying,
    /// The tunnel is over; both streams are released.
    Ended,
}

/// What the I/O loop must do next with a tunnel.
#[derive(Clone, Copy, PartialEq, Eq, Structural, Debug)]
pub enum TunnelStep {
    /// Open the outbound TCP connection to the plan's target.
    Dial,
    /// Run the relay over the two live streams.
    Relay,
    /// Tear down: close every stream the tunnel still holds.
    Close,
}

/// The outcome one tunnel is logged with.
#[derive(Clone, Copy, PartialEq, Eq, Structural, Debug)]
pub enum TunnelOutcome {
    /// The client connection never became a raw stream.
    UpgradeFailed,
    /// The destination could not be reached; the tunnel is abandoned after
    /// one attempt.
    ConnectFailed,
    /// The relay ended cleanly, moving these totals.
    Relayed { from_client: u64, from_dest: u64 },
    /// The relay ended in an I/O error.
    RelayFailed,
}

/// The outcome a finished relay is logged with.
pub open spec fn outcome_of_relay(r: RelayResult) -> TunnelOutcome {
    match r {
        RelayResult::Completed { from_client, from_dest } => TunnelOutcome::Relayed {
            from_client,
            from_dest,
        },
        RelayResult::Failed => TunnelOutcome::RelayFailed,
    }
}

/// Runs one tunnel: holds its dial target and its phase, and sequences
/// upgrade, dial, relay and teardown. One supervisor owns one tunnel and
/// nothing else, so whatever happens to it stays within it.
pub struct Supervisor {
    pub phase: TunnelPhase,
    pub target: Vec<u8>,
}

impl Supervisor {
    /// A supervisor for an accepted tunnel, about to wait for the upgraded
    /// client stream.
    pub fn new(plan: TunnelPlan) -> (s: Self)
        ensures
            s.phase == TunnelPhase::AwaitUpgrade,
            s.target@ == plan.target@,
    {
        Supervisor { phase: TunnelPhase::AwaitUpgrade, target: plan.target }
    }

    /// The authority the tunnel dials.
    pub fn target(&self) -> (t: &Vec<u8>)
        ensures
            t@ == self.target@,
    {
        &self.target
    }

    /// The upgrade finished: on success the destination is dialed; on
    /// failure the tunnel ends and the client stream is closed.
    pub fn on_upgrade(&mut self, ok: bool) -> (step: TunnelStep)
        requires
            old(self).phase == TunnelPhase::AwaitUpgrade,
        ensures
            final(self).target@ == old(self).target@,
            ok ==> final(self).phase == TunnelPhase::Connecting && step == TunnelStep::Dial,
            !ok ==> final(self).phase == TunnelPhase::Ended && step == TunnelStep::Close,
    {
        if ok {
            self.phase = TunnelPhase::Connecting;
            TunnelStep::Dial
        } else {
            self.phase = TunnelPhase::Ended;
            TunnelStep::Close
        }
    }

    /// The dial finished: on success the relay starts; on failure the
    /// tunnel ends and the client stream is closed — no retry, and no
    /// response, since the success status went out before the upgrade.
    pub fn on_connect(&mut self, ok: bool) -> (step: TunnelStep)
        requires
            old(self).phase == TunnelPhase::Connecting,
        ensures
            final(self).target@ == old(self).target@,
            ok ==> final(self).phase == TunnelPhase::Relaying && step == TunnelStep::Relay,
            !ok ==> final(self).phase == TunnelPhase::Ended && step == TunnelStep::Close,
    {
        if ok {
            self.phase = TunnelPhase::Relaying;
            TunnelStep::Relay
        } else {
            self.phase = TunnelPhase::Ended;
            TunnelStep::Close
        }
    }

    /// The relay ended, cleanly or not: the tunnel is over either way, both
    /// streams are to be closed, and the outcome says what to log.
    pub fn on_relay_end(&mut self, r: &RelayResult) -> (o: TunnelOutcome)
        requires
            old(self).phase == TunnelPhase::Relaying,
        ensures
            final(self).target@ == old(self).target@,
            final(self).phase == TunnelPhase::Ended,
            o == outcome_of_relay(*r),
    {
        self.phase = TunnelPhase::Ended;
        match r {
            RelayResult::Completed { from_client, from_dest } => TunnelOutcome::Relayed {
                from_client: *from_client,
                from_dest: *from_dest,
            },
            RelayResult::Failed => TunnelOutcome::RelayFailed,
        }
    }
}

} // verus!
