//! The champ-select session document of the client, as plain values.

use crate::text::same_text;
use vstd::prelude::*;

verus! {

/// A JSON value of `serde_json`, carried through as it came.
#[verifier::external_type_specification]
#[verifier::external_body]
pub struct ExJsonValue(serde_json::Value);

/// One champ-select session as the client reports it.
#[derive(Clone, Debug)]
pub struct ChampSelectSession {
    pub allow_battle_boost: bool,
    pub allow_duplicate_picks: bool,
    pub allow_locked_events: bool,
    pub allow_rerolling: bool,
    pub allow_skin_selection: bool,
    pub bench_enabled: bool,
    pub boostable_skin_count: i64,
    pub counter: i64,
    /// The match identity: every decision about a match is keyed by it.
    pub game_id: u64,
    pub has_simultaneous_bans: bool,
    pub has_simultaneous_picks: bool,
    pub is_custom_game: bool,
    pub is_spectating: bool,
    pub local_player_cell_id: i64,
    pub locked_event_index: i64,
    pub recovery_counter: i64,
    pub rerolls_remaining: i64,
    pub skip_champion_select: bool,
    pub timer: Timer,
}

/// One pick or ban of a session.
#[derive(Clone, Debug)]
pub struct Action {
    pub actor_cell_id: i64,
    pub champion_id: i64,
    pub completed: bool,
    pub id: i64,
    pub is_ally_action: bool,
    pub is_in_progress: bool,
    pub action_type: Type,
}

/// The kind of an `Action`.
#[derive(Clone, Copy, Debug, PartialEq, Eq)]
pub enum Type {
    Ban,
    Pick,
    TenBansReveal,
}

/// The bans of both teams.
#[derive(Clone, Debug)]
pub struct Bans {
    pub my_team_bans: Vec<Option<serde_json::Value>>,
    pub num_bans: i64,
    pub their_team_bans: Vec<Option<serde_json::Value>>,
}

/// How to reach the chat room of a session.
#[derive(Clone, Debug)]
pub struct ChatDetails {
    pub muc_jwt_dto: MucJwtDto,
    pub multi_user_chat_id: String,
    pub multi_user_chat_password: String,
}

/// The token that admits to a chat room.
#[derive(Clone, Debug)]
pub struct MucJwtDto {
    pub channel_claim: String,
    pub domain: String,
    pub jwt: String,
    pub target_region: String,
}

/// One member of a team in champ select.
#[derive(Clone, Debug)]
pub struct Team {
    pub assigned_position: String,
    pub cell_id: i64,
    pub champion_id: i64,
    pub champion_pick_intent: i64,
    pub name_visibility_type: NameVisibilityType,
    pub obfuscated_puuid: String,
    pub obfuscated_summoner_id: i64,
    pub puuid: String,
    pub selected_skin_id: i64,
    pub spell1_id: i64,
    pub spell2_id: i64,
    pub summoner_id: i64,
    pub team: i64,
    pub ward_skin_id: i64,
}

/// Whether a member's name is shown.
#[derive(Clone, Copy, Debug, PartialEq, Eq)]
pub enum NameVisibilityType {
    Hidden,
    Unhidden,
}

/// An offer to swap the pick order.
#[derive(Clone, Debug)]
pub struct PickOrderSwap {
    pub cell_id: i64,
    pub id: i64,
    pub state: String,
}

/// The countdown of the current sub-phase of champ select.
#[derive(Clone, Debug)]
pub struct Timer {
    /// Milliseconds left in the sub-phase.
    pub adjusted_time_left_in_phase: u64,
    pub internal_now_in_epoch_ms: u64,
    pub is_infinite: bool,
    /// Name of the sub-phase.
    pub phase: String,
    pub total_time_in_phase: i64,
}

impl Timer {
    /// The sub-phase is the final countdown, after which the match is locked in.
    pub open spec fn in_finalization(self) -> bool {
        self.phase@ == "FINALIZATION"@
    }

    /// Whether the sub-phase is the final countdown.
    pub fn is_finalization(&self) -> (last: bool)
        ensures
            last == self.in_finalization(),
    {
        same_text(self.phase.as_str(), "FINALIZATION")
    }
}

} // verus!
