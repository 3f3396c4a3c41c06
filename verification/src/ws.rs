//! The event dispatcher: routes one pushed event by its topic to the lifecycle
//! state machine or to the dodge arbiter and the tracker. It keeps no state of
//! its own.

use crate::champ_select::ChampSelectSession;
use crate::config::Config;
use crate::dodge::DodgeState;
use crate::state::{handle_client_state, PhaseOutcome};
use crate::text::{same_text, strip_quotes, without_quotes};
use vstd::prelude::*;

verus! {

/// One pushed event as plain values.
#[derive(Clone, Debug)]
pub struct WsEvent {
    /// The topic under which the client pushed the event.
    pub topic: String,
    /// The payload as JSON text.
    pub data: String,
    /// The payload read as a session document; `None` where it is no such document.
    pub session: Option<ChampSelectSession>,
}

/// The topics that the dispatcher knows.
#[derive(Clone, Copy, Debug, PartialEq, Eq)]
pub enum Topic {
    /// The lifecycle phase changed.
    GameflowPhase,
    /// The champ-select session changed.
    ChampSelectSession,
    /// Any other topic.
    Unrecognized,
}

/// What the dispatcher made of one event.
#[derive(Clone, Debug)]
pub enum WsOutcome {
    /// A phase change, with what the lifecycle state machine asks for.
    Phase(PhaseOutcome),
    /// A session document of match `game_id`: hand the match to the tracker,
    /// and issue the abandon call after `dodge_after_ms` milliseconds where
    /// that is `Some`.
    Session { game_id: u64, dodge_after_ms: Option<u64> },
    /// A session event whose payload is no session document: dropped after a diagnostic.
    Malformed,
    /// An event of a topic that the dispatcher does not know: logged and dropped.
    Unhandled,
}

/// The topic of phase changes.
pub open spec fn gameflow_topic() -> Seq<char> {
    "OnJsonApiEvent_lol-gameflow_v1_gameflow-phase"@
}

/// The topic of session changes.
pub open spec fn session_topic() -> Seq<char> {
    "OnJsonApiEvent_lol-champ-select_v1_session"@
}

/// The topic that the string `topic` names.
pub open spec fn topic_of(topic: Seq<char>) -> Topic {
    if topic == gameflow_topic() {
        Topic::GameflowPhase
    } else if topic == session_topic() {
        Topic::ChampSelectSession
    } else {
        Topic::Unrecognized
    }
}

/// Whether a countdown update of `session` schedules the abandon call in state `dodge`.
pub open spec fn schedules_dodge(session: ChampSelectSession, dodge: DodgeState) -> bool {
    session.timer.in_finalization() && dodge.fires_for(session.game_id)
}

/// The arbiter's state after the event.
pub open spec fn dodge_after(event: WsEvent, dodge: DodgeState) -> DodgeState {
    match event.session {
        Some(session) if topic_of(event.topic@) == Topic::ChampSelectSession
            && session.timer.in_finalization() => dodge.after_finalization(session.game_id),
        _ => dodge,
    }
}

impl WsOutcome {
    /// The outcome is the one that `event` asks for in arbiter state `dodge`
    /// under the given settings.
    pub open spec fn is_for(
        self,
        event: WsEvent,
        dodge: DodgeState,
        auto_accept: bool,
        accept_delay: u32,
    ) -> bool {
        match topic_of(event.topic@) {
            Topic::GameflowPhase => self matches WsOutcome::Phase(outcome) && outcome.is_for(
                without_quotes(event.data@),
                auto_accept,
                accept_delay,
            ),
            Topic::ChampSelectSession => match event.session {
                Some(session) => self == (WsOutcome::Session {
                    game_id: session.game_id,
                    dodge_after_ms: if schedules_dodge(session, dodge) {
                        Some(session.timer.adjusted_time_left_in_phase)
                    } else {
                        None
                    },
                }),
                None => self is Malformed,
            },
            Topic::Unrecognized => self is Unhandled,
        }
    }
}

/// The paths whose events the supervisor subscribes to: the lifecycle phase and
/// the champ-select session, and no other.
pub fn subscriptions() -> (paths: Vec<&'static str>)
    ensures
        paths@.len() == 2,
        paths@[0]@ == "/lol-gameflow/v1/gameflow-phase"@,
        paths@[1]@ == "/lol-champ-select/v1/session"@,
{
    let mut paths: Vec<&'static str> = Vec::new();
    paths.push("/lol-gameflow/v1/gameflow-phase");
    paths.push("/lol-champ-select/v1/session");
    paths
}

/// Names the topic of an event.
pub fn classify_topic(topic: &str) -> (kind: Topic)
    ensures
        kind == topic_of(topic@),
{
    if same_text(topic, "OnJsonApiEvent_lol-gameflow_v1_gameflow-phase") {
        Topic::GameflowPhase
    } else if same_text(topic, "OnJsonApiEvent_lol-champ-select_v1_session") {
        Topic::ChampSelectSession
    } else {
        Topic::Unrecognized
    }
}

/// Routes one pushed event. A phase event has its payload stripped of quotes
/// and handed to the lifecycle state machine. A session event whose payload is
/// a session document goes to the tracker whatever its sub-phase, and in the
/// final countdown to the dodge arbiter, which may schedule the abandon call;
/// one whose payload is no session document is dropped. An event of any other
/// topic is dropped. Only a session event in the final countdown changes the
/// arbiter's state.
pub fn handle_ws_message(msg: &WsEvent, config: &Config, dodge_state: &mut DodgeState) -> (outcome:
    WsOutcome)
    ensures
        outcome.is_for(*msg, *old(dodge_state), config.auto_accept, config.accept_delay),
        *final(dodge_state) == dodge_after(*msg, *old(dodge_state)),
{
    match classify_topic(msg.topic.as_str()) {
        Topic::GameflowPhase => {
            let client_state = strip_quotes(msg.data.as_str());
            WsOutcome::Phase(handle_client_state(client_state.as_str(), config))
        },
        Topic::ChampSelectSession => {
            match &msg.session {
                Some(champ_select) => {
                    let game_id = champ_select.game_id;
                    let dodge_after_ms = if champ_select.timer.is_finalization() {
                        dodge_state.on_finalization(
                            game_id,
                            champ_select.timer.adjusted_time_left_in_phase,
                        )
                    } else {
                        None
                    };
                    WsOutcome::Session { game_id, dodge_after_ms }
                },
                None => WsOutcome::Malformed,
            }
        },
        Topic::Unrecognized => WsOutcome::Unhandled,
    }
}

/// An arbiter armed for one match is not moved by a session event of another
/// match, whatever its sub-phase, and that event schedules no abandon call.
pub proof fn law_session_of_other_match_schedules_nothing(
    event: WsEvent,
    dodge: DodgeState,
    armed_match: u64,
)
    requires
        dodge.enabled == Some(armed_match),
        event.session is Some,
        event.session->0.game_id != armed_match,
    ensures
        dodge_after(event, dodge) == dodge,
        !schedules_dodge(event.session->0, dodge),
{
}

/// A session event delivered twice in a row schedules the abandon call at most
/// once: after the first delivery the second schedules nothing and leaves the
/// arbiter as it is.
pub proof fn law_repeated_session_schedules_once(event: WsEvent, dodge: DodgeState)
    requires
        topic_of(event.topic@) == Topic::ChampSelectSession,
        event.session is Some,
    ensures
        !schedules_dodge(event.session->0, dodge_after(event, dodge)),
        dodge_after(event, dodge_after(event, dodge)) == dodge_after(event, dodge),
{
}

} // verus!
