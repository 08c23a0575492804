use vstd::prelude::*;

verus! {

/// One bridge configuration flag to flip through governance: a parameter
/// subspace, a key inside it, and the new value rendered as a string.
#[derive(Clone, Debug)]
pub struct GovernanceParamChange {
    pub subspace: String,
    pub key: String,
    pub value: String,
}

/// The parameter change that sets the bridge-active flag.
pub fn bridge_active_change(active: bool) -> (r: GovernanceParamChange)
    ensures
        r.subspace@ == "gravity"@,
        r.key@ == "BridgeActive"@,
        active ==> r.value@ == "true"@,
        !active ==> r.value@ == "false"@,
{
    GovernanceParamChange {
        subspace: "gravity".to_owned(),
        key: "BridgeActive".to_owned(),
        value: if active {
            "true".to_owned()
        } else {
            "false".to_owned()
        },
    }
}

/// The next outside action the pause controller asks its driver to perform.
/// The driver performs it against the source chain and reports the matching
/// event back.
#[derive(Clone, Copy, Debug, PartialEq, Eq, Structural)]
pub enum GovernanceAction {
    /// Submit the parameter-change proposal under the proposer's identity.
    SubmitProposal,
    /// Have the voter with this index cast an approval vote.
    CastApprovalVote(usize),
    /// Let the voting period elapse. This wait is a fixed-duration sleep
    /// bounded by the chain's known voting-period configuration: there is no
    /// observable "proposal executing" signal short of the flag itself.
    AwaitVotingPeriod,
    /// Read the current bridge-active flag.
    ReadBridgeActiveFlag,
}

/// What the driver reports back after performing the requested action.
#[derive(Clone, Copy, Debug, PartialEq, Eq, Structural)]
pub enum GovernanceEvent {
    ProposalSubmitted,
    VoteCast,
    VotingPeriodElapsed,
    FlagRead(bool),
}

/// Where the sequential pause protocol stands. The protocol is strictly
/// ordered: submit, then every approval vote, then the voting-period wait,
/// then one confirming read of the flag.
#[derive(Clone, Copy, Debug, PartialEq, Eq, Structural)]
pub enum GovernancePhase {
    Submitting,
    Voting { next_voter: usize },
    AwaitingExecution,
    Confirming,
    /// The flag read back equalled the requested value.
    Done { observed: bool },
    /// The flag read back differed from the requested value: governance
    /// execution is deterministic once the period elapses, so this is fatal.
    Failed { observed: bool },
}

/// How the controller moves on one driver event. An event that is not the
/// answer to the phase's action leaves the phase unchanged.
pub open spec fn governance_step(
    requested: bool,
    n_voters: usize,
    phase: GovernancePhase,
    event: GovernanceEvent,
) -> GovernancePhase {
    match (phase, event) {
        (GovernancePhase::Submitting, GovernanceEvent::ProposalSubmitted) => if n_voters == 0 {
            GovernancePhase::AwaitingExecution
        } else {
            GovernancePhase::Voting { next_voter: 0 }
        },
        (GovernancePhase::Voting { next_voter }, GovernanceEvent::VoteCast) => if next_voter + 1
            >= n_voters {
            GovernancePhase::AwaitingExecution
        } else {
            GovernancePhase::Voting { next_voter: (next_voter + 1) as usize }
        },
        (GovernancePhase::AwaitingExecution, GovernanceEvent::VotingPeriodElapsed) => {
            GovernancePhase::Confirming
        },
        (GovernancePhase::Confirming, GovernanceEvent::FlagRead(f)) => if f == requested {
            GovernancePhase::Done { observed: f }
        } else {
            GovernancePhase::Failed { observed: f }
        },
        _ => phase,
    }
}

/// Drives the bridge's runtime-configurable active flag to a requested value
/// through a governance proposal, and confirms the resulting state with a
/// fresh read of the flag.
pub struct GovernancePauseController {
    /// The flag value the controller was asked to establish.
    pub requested: bool,
    /// How many voter identities cast approval votes.
    pub n_voters: usize,
    pub phase: GovernancePhase,
}

impl GovernancePauseController {
    /// A voting cursor never points past the voter set.
    pub open spec fn wf(self) -> bool {
        match self.phase {
            GovernancePhase::Voting { next_voter } => next_voter < self.n_voters,
            _ => true,
        }
    }

    pub fn new(requested: bool, n_voters: usize) -> (r: GovernancePauseController)
        ensures
            r.requested == requested,
            r.n_voters == n_voters,
            r.phase == GovernancePhase::Submitting,
            r.wf(),
    {
        GovernancePauseController { requested, n_voters, phase: GovernancePhase::Submitting }
    }

    /// The outside action the protocol needs next, or `None` once it has
    /// concluded.
    pub fn next_action(&self) -> (r: Option<GovernanceAction>)
        ensures
            match self.phase {
                GovernancePhase::Submitting => r == Some(GovernanceAction::SubmitProposal),
                GovernancePhase::Voting { next_voter } => r == Some(
                    GovernanceAction::CastApprovalVote(next_voter),
                ),
                GovernancePhase::AwaitingExecution => r == Some(GovernanceAction::AwaitVotingPeriod),
                GovernancePhase::Confirming => r == Some(GovernanceAction::ReadBridgeActiveFlag),
                GovernancePhase::Done { .. } => r is None,
                GovernancePhase::Failed { .. } => r is None,
            },
    {
        match self.phase {
            GovernancePhase::Submitting => Some(GovernanceAction::SubmitProposal),
            GovernancePhase::Voting { next_voter } => Some(
                GovernanceAction::CastApprovalVote(next_voter),
            ),
            GovernancePhase::AwaitingExecution => Some(GovernanceAction::AwaitVotingPeriod),
            GovernancePhase::Confirming => Some(GovernanceAction::ReadBridgeActiveFlag),
            GovernancePhase::Done { .. } => None,
            GovernancePhase::Failed { .. } => None,
        }
    }

    /// Advance the protocol on one driver event.
    pub fn apply_event(&mut self, event: GovernanceEvent)
        requires
            old(self).wf(),
        ensures
            final(self).requested == old(self).requested,
            final(self).n_voters == old(self).n_voters,
            final(self).phase == governance_step(
                old(self).requested,
                old(self).n_voters,
                old(self).phase,
                event,
            ),
            final(self).wf(),
    {
        let next = match (self.phase, event) {
            (GovernancePhase::Submitting, GovernanceEvent::ProposalSubmitted) => if self.n_voters
                == 0 {
                GovernancePhase::AwaitingExecution
            } else {
                GovernancePhase::Voting { next_voter: 0 }
            },
            (GovernancePhase::Voting { next_voter }, GovernanceEvent::VoteCast) => if next_voter + 1
                >= self.n_voters {
                GovernancePhase::AwaitingExecution
            } else {
                GovernancePhase::Voting { next_voter: next_voter + 1 }
            },
            (GovernancePhase::AwaitingExecution, GovernanceEvent::VotingPeriodElapsed) => {
                GovernancePhase::Confirming
            },
            (GovernancePhase::Confirming, GovernanceEvent::FlagRead(f)) => if f == self.requested {
                GovernancePhase::Done { observed: f }
            } else {
                GovernancePhase::Failed { observed: f }
            },
            (p, _) => p,
        };
        self.phase = next;
    }
}

/// The controller never concludes successfully on a stale or mismatched
/// read: whenever a step ends in `Done`, the flag value it observed is
/// exactly the requested one, and it was delivered by the confirming read.
pub proof fn lemma_controller_success_means_requested_flag(
    requested: bool,
    n_voters: usize,
    phase: GovernancePhase,
    event: GovernanceEvent,
    observed: bool,
)
    requires
        !(phase is Done),
        governance_step(requested, n_voters, phase, event) == (GovernancePhase::Done { observed }),
    ensures
        observed == requested,
        phase is Confirming,
        event == GovernanceEvent::FlagRead(requested),
{
}

} // verus!
