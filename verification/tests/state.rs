use lcu_supervisor::config::{default_provider, Config};
use lcu_supervisor::phase::{ClientPhase, PhaseKind};
use lcu_supervisor::state::{handle_client_state, PhaseAction, CHAMP_SELECT_SETTLE_MS};

fn settings(auto_accept: bool, accept_delay: u32) -> Config {
    Config { auto_open: true, auto_accept, accept_delay, multi_provider: default_provider() }
}

#[test]
fn accept_is_issued_for_the_ready_check_only() {
    let cfg = settings(true, 2000);
    let mut accepts = Vec::new();
    let mut published = Vec::new();
    for phase in ["None", "Lobby", "Matchmaking", "ReadyCheck", "ChampSelect"] {
        let outcome = handle_client_state(phase, &cfg);
        published.push(outcome.publish.clone());
        if let PhaseAction::AcceptMatch { delay_ms } = outcome.action {
            accepts.push((phase, delay_ms));
        }
    }
    assert_eq!(accepts, vec![("ReadyCheck", 2000u64)]);
    assert_eq!(published, vec!["None", "Lobby", "Matchmaking", "ReadyCheck", "ChampSelect"]);
}

#[test]
fn ready_check_without_auto_accept_asks_for_nothing() {
    let cfg = settings(false, 2000);
    assert_eq!(handle_client_state("ReadyCheck", &cfg).action, PhaseAction::Nothing);
}

#[test]
fn champ_select_starts_the_flow_after_the_settle_delay() {
    let cfg = settings(true, 500);
    let outcome = handle_client_state("ChampSelect", &cfg);
    assert_eq!(outcome.action, PhaseAction::StartChampSelect { settle_ms: CHAMP_SELECT_SETTLE_MS });
    assert_eq!(CHAMP_SELECT_SETTLE_MS, 3000);
    assert_eq!(outcome.phase.to_kind(), PhaseKind::ChampSelect);
}

#[test]
fn unknown_phase_is_published_unchanged() {
    let cfg = settings(true, 2000);
    let outcome = handle_client_state("TerminatedInError", &cfg);
    assert_eq!(outcome.publish, "TerminatedInError");
    assert_eq!(outcome.action, PhaseAction::Nothing);
    assert_eq!(outcome.phase.to_kind(), PhaseKind::Unknown);
    assert_eq!(outcome.phase.as_string(), "TerminatedInError");
}

#[test]
fn accept_delay_is_taken_as_configured() {
    assert_eq!(
        handle_client_state("ReadyCheck", &settings(true, 0)).action,
        PhaseAction::AcceptMatch { delay_ms: 0 }
    );
    assert_eq!(
        handle_client_state("ReadyCheck", &settings(true, u32::MAX)).action,
        PhaseAction::AcceptMatch { delay_ms: 4294967295 }
    );
}

#[test]
fn phases_parse_and_print_by_their_client_names() {
    let names =
        ["None", "Lobby", "Matchmaking", "ReadyCheck", "ChampSelect", "InProgress", "EndOfGame"];
    let kinds = [
        PhaseKind::Idle,
        PhaseKind::Lobby,
        PhaseKind::Matchmaking,
        PhaseKind::ReadyCheck,
        PhaseKind::ChampSelect,
        PhaseKind::InProgress,
        PhaseKind::EndOfGame,
    ];
    for (name, kind) in names.iter().zip(kinds.iter()) {
        let phase = ClientPhase::parse(name);
        assert_eq!(phase.to_kind(), *kind);
        assert_eq!(phase.as_string(), *name);
    }
    assert!(matches!(ClientPhase::parse("None"), ClientPhase::Idle));
    assert!(matches!(ClientPhase::parse("none"), ClientPhase::Unknown(_)));
    assert!(matches!(ClientPhase::parse(""), ClientPhase::Unknown(_)));
    assert_eq!(ClientPhase::parse("").as_string(), "");
    assert_eq!(ClientPhase::parse("Lobby ").to_kind(), PhaseKind::Unknown);
}

#[test]
fn first_start_settings() {
    let cfg = Config::default();
    assert!(cfg.auto_open);
    assert!(!cfg.auto_accept);
    assert_eq!(cfg.accept_delay, 2000);
    assert_eq!(cfg.multi_provider, "opgg");
    assert_eq!(default_provider(), "opgg");
}
