use lcu_supervisor::config::Config;
use lcu_supervisor::tracker::{
    still_in_champ_select, RosterStep, RosterTracker, EXPECTED_ROSTER_SIZE,
    ROSTER_POLL_INTERVAL_MS,
};

fn settings(auto_open: bool) -> Config {
    Config {
        auto_open,
        auto_accept: false,
        accept_delay: 2000,
        multi_provider: "opgg".to_string(),
    }
}

fn flags(step: &RosterStep) -> (bool, bool, bool, bool) {
    (step.roster_update, step.auto_open, step.final_roster, step.keep_polling)
}

#[test]
fn roster_sizes_0_2_2_5_update_after_second_and_fourth_poll() {
    let cfg = settings(true);
    let mut tracker = RosterTracker::new();
    let first = tracker.observe(42, 0, &cfg);
    let second = tracker.observe(42, 2, &cfg);
    let third = tracker.observe(42, 2, &cfg);
    let fourth = tracker.observe(42, 5, &cfg);
    assert_eq!(flags(&first), (false, false, false, true));
    assert_eq!(flags(&second), (true, false, false, true));
    assert_eq!(flags(&third), (false, false, false, true));
    assert_eq!(flags(&fourth), (true, true, true, false));
    assert_eq!(tracker.game_id, Some(42));
    assert_eq!(tracker.last_participant_count, 5);
    assert_eq!(tracker.finished, Some(42));
    assert!(tracker.is_complete());
    assert!(tracker.auto_opened);
}

#[test]
fn page_is_opened_once_with_the_complete_roster() {
    let cfg = settings(true);
    let mut tracker = RosterTracker::new();
    let mut opened = Vec::new();
    for (poll, count) in [0usize, 2, 2, 5, 5, 6].into_iter().enumerate() {
        if tracker.observe(42, count, &cfg).auto_open {
            opened.push((poll + 1, count));
        }
    }
    assert_eq!(opened, vec![(4, 5)]);
}

#[test]
fn page_is_not_opened_where_the_settings_do_not_want_it() {
    let cfg = settings(false);
    let mut tracker = RosterTracker::new();
    for count in [1usize, 3, 5, 5] {
        assert!(!tracker.observe(3, count, &cfg).auto_open);
    }
    assert!(!tracker.auto_opened);
    assert!(tracker.is_complete());
}

#[test]
fn page_is_not_opened_for_a_roster_that_stays_incomplete() {
    let cfg = settings(true);
    let mut tracker = RosterTracker::new();
    for count in [1usize, 2, 3, 4, 4] {
        assert!(!tracker.observe(3, count, &cfg).auto_open);
    }
    assert!(!tracker.auto_opened);
}

#[test]
fn final_milestone_fires_once_per_match() {
    let cfg = settings(false);
    let mut tracker = RosterTracker::new();
    let mut fired = 0;
    for count in [1usize, 3, 5, 5, 7, 5] {
        if tracker.observe(7, count, &cfg).final_roster {
            fired += 1;
        }
    }
    assert_eq!(fired, 1);
}

#[test]
fn final_milestone_needs_a_complete_roster() {
    let cfg = settings(true);
    let mut tracker = RosterTracker::new();
    for count in [0usize, 1, 2, 3, 4, 4, 4] {
        let step = tracker.observe(7, count, &cfg);
        assert!(!step.final_roster);
        assert!(step.keep_polling);
    }
    assert!(!tracker.is_complete());
    assert_eq!(tracker.finished, None);
    assert_eq!(tracker.last_participant_count, 4);
}

#[test]
fn observations_after_the_final_milestone_ask_for_nothing() {
    let cfg = settings(true);
    let mut tracker = RosterTracker::new();
    assert!(tracker.observe(9, 5, &cfg).final_roster);
    let later = tracker.observe(9, 6, &cfg);
    assert_eq!(flags(&later), (false, false, false, false));
    assert_eq!(tracker.last_participant_count, 5);
}

#[test]
fn a_complete_roster_at_the_first_poll_fires_everything_at_once() {
    let cfg = settings(true);
    let mut tracker = RosterTracker::new();
    let step = tracker.observe(1, 5, &cfg);
    assert_eq!(flags(&step), (true, true, true, false));
}

#[test]
fn a_smaller_roster_is_no_update() {
    let cfg = settings(true);
    let mut tracker = RosterTracker::new();
    assert!(tracker.observe(3, 3, &cfg).roster_update);
    assert!(!tracker.observe(3, 2, &cfg).roster_update);
    assert!(!tracker.observe(3, 3, &cfg).roster_update);
    assert!(tracker.observe(3, 4, &cfg).roster_update);
    assert_eq!(tracker.last_participant_count, 4);
}

#[test]
fn a_new_match_starts_from_nothing() {
    let cfg = settings(true);
    let mut tracker = RosterTracker::new();
    assert!(tracker.observe(10, 5, &cfg).final_roster);
    let step = tracker.observe(11, 5, &cfg);
    assert_eq!(flags(&step), (true, true, true, false));
    assert_eq!(tracker.game_id, Some(11));
    assert_eq!(tracker.finished, Some(11));
}

#[test]
fn a_finished_match_does_not_fire_again_after_another_match_was_seen() {
    let cfg = settings(true);
    let mut tracker = RosterTracker::new();
    assert!(tracker.observe(1, 5, &cfg).final_roster);
    let other = tracker.observe(2, 3, &cfg);
    assert_eq!(flags(&other), (true, false, false, true));
    let again = tracker.observe(1, 5, &cfg);
    assert_eq!(flags(&again), (false, false, false, false));
    assert_eq!(tracker.finished, Some(1));
    assert_eq!(tracker.game_id, Some(1));
}

#[test]
fn leaving_champ_select_stops_without_final_milestone() {
    let cfg = settings(true);
    let mut tracker = RosterTracker::new();
    assert!(tracker.observe(5, 3, &cfg).keep_polling);
    tracker.leave_champ_select(5);
    assert!(tracker.stopped);
    assert_eq!(tracker.last_participant_count, 3);
    let step = tracker.observe(5, 5, &cfg);
    assert_eq!(flags(&step), (false, false, false, false));
    assert!(!tracker.is_complete());
}

#[test]
fn a_match_left_before_it_was_seen_stays_silent() {
    let cfg = settings(true);
    let mut tracker = RosterTracker::new();
    tracker.leave_champ_select(5);
    assert_eq!(tracker.game_id, Some(5));
    assert!(tracker.stopped);
    let step = tracker.observe(5, 5, &cfg);
    assert_eq!(flags(&step), (false, false, false, false));
    assert_eq!(tracker.finished, None);

    let mut other = RosterTracker::new();
    assert!(other.observe(4, 2, &cfg).keep_polling);
    other.leave_champ_select(5);
    assert_eq!(other.game_id, Some(5));
    assert_eq!(other.last_participant_count, 0);
    assert_eq!(flags(&other.observe(5, 5, &cfg)), (false, false, false, false));
}

#[test]
fn poll_goes_on_only_in_champ_select() {
    let mut tracker = RosterTracker::new();
    assert!(tracker.check_phase(8, Some("\"ChampSelect\"")));
    assert!(tracker.check_phase(8, Some("ChampSelect")));
    assert!(!tracker.stopped);
    assert_eq!(tracker.game_id, None);
    assert!(!tracker.check_phase(8, Some("\"InProgress\"")));
    assert!(tracker.stopped);
    assert_eq!(tracker.game_id, Some(8));

    let mut unanswered = RosterTracker::new();
    assert!(!unanswered.check_phase(8, None));
    assert!(unanswered.stopped);

    let mut lower = RosterTracker::new();
    assert!(!lower.check_phase(8, Some("champselect")));
}

#[test]
fn phase_alone_tells_whether_champ_select_goes_on() {
    assert!(still_in_champ_select(Some("\"ChampSelect\"")));
    assert!(still_in_champ_select(Some("ChampSelect")));
    assert!(!still_in_champ_select(Some("\"Lobby\"")));
    assert!(!still_in_champ_select(Some("")));
    assert!(!still_in_champ_select(None));
}

#[test]
fn tracker_constants() {
    assert_eq!(EXPECTED_ROSTER_SIZE, 5);
    assert_eq!(ROSTER_POLL_INTERVAL_MS, 2000);
    let tracker = RosterTracker::new();
    assert_eq!(tracker.game_id, None);
    assert_eq!(tracker.finished, None);
    assert_eq!(tracker.last_participant_count, 0);
    assert!(!tracker.auto_opened && !tracker.is_complete() && !tracker.stopped);
}
