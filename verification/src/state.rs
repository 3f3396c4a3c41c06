//! The lifecycle state machine: what entering a phase asks for.

use crate::config::Config;
use crate::phase::{kind_of, ClientPhase, PhaseKind};
use vstd::prelude::*;

verus! {

/// Milliseconds to wait after the client reports champ select, so that the
/// roster can fill, before the champ-select flow starts.
pub const CHAMP_SELECT_SETTLE_MS: u64 = 3000;

/// What entering a phase asks for, beyond publishing it.
#[derive(Clone, Copy, Debug, PartialEq, Eq)]
pub enum PhaseAction {
    /// Nothing more.
    Nothing,
    /// Start the champ-select flow after `settle_ms` milliseconds.
    StartChampSelect { settle_ms: u64 },
    /// Accept the found match after `delay_ms` milliseconds, as a task of its
    /// own that nothing cancels.
    AcceptMatch { delay_ms: u64 },
}

/// What a phase change asks for.
#[derive(Clone, Debug)]
pub struct PhaseOutcome {
    /// The phase entered.
    pub phase: ClientPhase,
    /// The phase string to publish: always the one that came in.
    pub publish: String,
    /// What to do besides.
    pub action: PhaseAction,
}

/// The action for a phase of kind `kind` under the given settings.
pub open spec fn action_of(kind: PhaseKind, auto_accept: bool, accept_delay: u32) -> PhaseAction {
    match kind {
        PhaseKind::ChampSelect => PhaseAction::StartChampSelect { settle_ms: CHAMP_SELECT_SETTLE_MS },
        PhaseKind::ReadyCheck => if auto_accept {
            PhaseAction::AcceptMatch { delay_ms: accept_delay as u64 }
        } else {
            PhaseAction::Nothing
        },
        _ => PhaseAction::Nothing,
    }
}

impl PhaseOutcome {
    /// The outcome is the one that the phase string `client_state` asks for
    /// under the given settings.
    pub open spec fn is_for(self, client_state: Seq<char>, auto_accept: bool, accept_delay: u32)
        -> bool {
        &&& self.publish@ == client_state
        &&& self.phase.name() == client_state
        &&& self.phase.kind() == kind_of(client_state)
        &&& self.phase.wf()
        &&& self.action == action_of(kind_of(client_state), auto_accept, accept_delay)
    }
}

/// Takes in the phase string that the client delivered. Every phase is
/// published as it came. Entering champ select starts the champ-select flow
/// after the settle delay; entering the ready check accepts the match after
/// the configured delay, if the settings want it; no other phase, known or
/// not, asks for anything.
pub fn handle_client_state(client_state: &str, config: &Config) -> (outcome: PhaseOutcome)
    ensures
        outcome.is_for(client_state@, config.auto_accept, config.accept_delay),
{
    let phase = ClientPhase::parse(client_state);
    let action = match phase.to_kind() {
        PhaseKind::ChampSelect => PhaseAction::StartChampSelect { settle_ms: CHAMP_SELECT_SETTLE_MS },
        PhaseKind::ReadyCheck => {
            if config.auto_accept {
                PhaseAction::AcceptMatch { delay_ms: config.accept_delay as u64 }
            } else {
                PhaseAction::Nothing
            }
        },
        _ => PhaseAction::Nothing,
    };
    PhaseOutcome { phase, publish: client_state.to_owned(), action }
}

/// The match is accepted in the ready check and in no other phase, and only
/// where the settings want it; the wait is the configured delay.
pub proof fn law_accept_only_in_ready_check(kind: PhaseKind, auto_accept: bool, accept_delay: u32)
    ensures
        action_of(kind, auto_accept, accept_delay) is AcceptMatch <==> kind == PhaseKind::ReadyCheck
            && auto_accept,
        action_of(kind, auto_accept, accept_delay) is AcceptMatch ==> action_of(
            kind,
            auto_accept,
            accept_delay,
        )->delay_ms == accept_delay,
        action_of(kind, auto_accept, accept_delay) is StartChampSelect <==> kind
            == PhaseKind::ChampSelect,
{
}

} // verus!
