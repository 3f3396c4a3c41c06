//! The dodge arbiter: decides whether a countdown update schedules the
//! "abandon match" call, armed and fired per match identity.

use vstd::prelude::*;

verus! {

/// For which match the arbiter is armed, and for which it last fired.
#[derive(Clone, Copy, Debug)]
pub struct DodgeState {
    /// The match for which the abandon call was last scheduled.
    pub last_dodge: Option<u64>,
    /// The match for which the arbiter is armed.
    pub enabled: Option<u64>,
}

/// What can reach the arbiter: the user's toggle, with the current match where
/// one is known, and a countdown update of the final sub-phase of a match.
pub enum DodgeEvent {
    Toggle(Option<u64>),
    Finalization(u64),
}

impl DodgeState {
    /// Neither armed nor fired.
    pub open spec fn unarmed() -> DodgeState {
        DodgeState { last_dodge: None, enabled: None }
    }

    /// The state after the user's toggle: disarmed if it was armed, else armed
    /// for the current match, if one is known.
    pub open spec fn toggled(self, current_match: Option<u64>) -> DodgeState {
        if self.enabled is Some {
            DodgeState { enabled: None, ..self }
        } else {
            DodgeState { enabled: current_match, ..self }
        }
    }

    /// A countdown update of match `game_id` schedules the abandon call: the
    /// arbiter has not fired for this match, and is armed for this very match.
    pub open spec fn fires_for(self, game_id: u64) -> bool {
        self.last_dodge != Some(game_id) && self.enabled == Some(game_id)
    }

    /// The state after a countdown update of match `game_id`.
    pub open spec fn after_finalization(self, game_id: u64) -> DodgeState {
        if self.fires_for(game_id) {
            DodgeState { last_dodge: Some(game_id), ..self }
        } else {
            self
        }
    }

    /// The state after one event.
    pub open spec fn after_event(self, event: DodgeEvent) -> DodgeState {
        match event {
            DodgeEvent::Toggle(current_match) => self.toggled(current_match),
            DodgeEvent::Finalization(game_id) => self.after_finalization(game_id),
        }
    }

    /// The state after the events `events`, in their order.
    pub open spec fn after_events(self, events: Seq<DodgeEvent>) -> DodgeState
        decreases events.len(),
    {
        if events.len() == 0 {
            self
        } else {
            self.after_events(events.drop_last()).after_event(events.last())
        }
    }

    /// The matches for which the events `events` scheduled the abandon call, in
    /// the order of scheduling.
    pub open spec fn firings(self, events: Seq<DodgeEvent>) -> Seq<u64>
        decreases events.len(),
    {
        if events.len() == 0 {
            Seq::empty()
        } else {
            let earlier = self.firings(events.drop_last());
            match events.last() {
                DodgeEvent::Finalization(game_id) if self.after_events(
                    events.drop_last(),
                ).fires_for(game_id) => earlier.push(game_id),
                _ => earlier,
            }
        }
    }

    /// Neither armed nor fired.
    pub fn new() -> (state: DodgeState)
        ensures
            state == Self::unarmed(),
    {
        DodgeState { last_dodge: None, enabled: None }
    }

    /// Whether the arbiter is armed, for whichever match.
    pub fn is_armed(&self) -> (armed: bool)
        ensures
            armed == (self.enabled is Some),
    {
        self.enabled.is_some()
    }

    /// The user's toggle. An armed arbiter is disarmed, whatever the current
    /// match. An unarmed one is armed for `current_match`; where no match is
    /// known there is nothing to arm for, and it stays unarmed.
    pub fn toggle(&mut self, current_match: Option<u64>)
        ensures
            *final(self) == old(self).toggled(current_match),
    {
        if self.enabled.is_some() {
            self.enabled = None;
        } else {
            self.enabled = current_match;
        }
    }

    /// A countdown update of the final sub-phase of match `game_id`, with
    /// `time_left_ms` milliseconds left. Returns the delay after which the
    /// abandon call is to be issued, or `None` where nothing is scheduled. The
    /// firing is recorded at once, before the delay runs, so that a repeated
    /// update of the same countdown schedules nothing.
    pub fn on_finalization(&mut self, game_id: u64, time_left_ms: u64) -> (delay_ms: Option<u64>)
        ensures
            delay_ms == (if old(self).fires_for(game_id) {
                Some(time_left_ms)
            } else {
                None
            }),
            *final(self) == old(self).after_finalization(game_id),
    {
        if let Some(last_dodge) = self.last_dodge {
            if last_dodge == game_id {
                return None;
            }
        }
        match self.enabled {
            Some(armed_for) => {
                if armed_for != game_id {
                    return None;
                }
            },
            None => {
                return None;
            },
        }
        self.last_dodge = Some(game_id);
        Some(time_left_ms)
    }
}

/// Arming is scoped to a match: an arbiter armed for one match schedules
/// nothing on a countdown update of another, and is left as it was.
pub proof fn law_arming_is_match_scoped(state: DodgeState, armed_match: u64, other_match: u64)
    requires
        state.enabled is None,
        armed_match != other_match,
    ensures
        !state.toggled(Some(armed_match)).fires_for(other_match),
        state.toggled(Some(armed_match)).after_finalization(other_match) == state.toggled(
            Some(armed_match),
        ),
{
}

/// Toggling twice in a row returns an unarmed arbiter to the state it was in,
/// whatever the match at either toggle.
pub proof fn law_toggle_twice_is_identity(
    state: DodgeState,
    first_match: u64,
    second_match: Option<u64>,
)
    requires
        state.enabled is None,
    ensures
        state.toggled(Some(first_match)).enabled == Some(first_match),
        state.toggled(Some(first_match)).toggled(second_match) == state,
{
}

/// A countdown update delivered twice schedules once: after the first
/// delivery for a match, a second one for the same match schedules nothing and
/// changes nothing.
pub proof fn law_repeated_finalization_is_noop(state: DodgeState, game_id: u64)
    ensures
        !state.after_finalization(game_id).fires_for(game_id),
        state.after_finalization(game_id).after_finalization(game_id) == state.after_finalization(
            game_id,
        ),
        state.fires_for(game_id) ==> state.after_finalization(game_id).last_dodge == Some(game_id),
{
}

/// Over any run of events, the arbiter fires for `last_dodge` last, and never
/// twice in a row for the same match: only a countdown of another match can
/// lead to a new firing.
pub proof fn law_no_repeated_firing(state: DodgeState, events: Seq<DodgeEvent>)
    ensures
        ({
            let fired = state.firings(events);
            &&& fired.len() == 0 ==> state.after_events(events).last_dodge == state.last_dodge
            &&& fired.len() > 0 ==> state.after_events(events).last_dodge == Some(fired.last())
            &&& fired.len() > 0 ==> state.last_dodge != Some(fired[0])
            &&& forall|i: int| 0 <= i < fired.len() - 1 ==> fired[i] != #[trigger] fired[i + 1]
        }),
    decreases events.len(),
{
    if events.len() > 0 {
        law_no_repeated_firing(state, events.drop_last());
    }
}

} // verus!
