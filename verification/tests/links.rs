use lcu_supervisor::analytics::{analytics_event, ANALYTICS_TIMEOUT_SECS};
use lcu_supervisor::api::{endpoint_url, user_agent, GAMEFLOW_PHASE_PATH, QUIT_MATCH_PATH};
use lcu_supervisor::lobby::{Lobby, Participant};
use lcu_supervisor::region::RegionInfo;
use lcu_supervisor::summoner::{RerollPoints, Summoner};
use lcu_supervisor::text::{same_text, strip_quotes};
use lcu_supervisor::utils::{
    champ_select_link, create_deeplol_link, create_opgg_link, create_tracker_link, create_ugg_link,
    multi_search_link, team_line, ugg_link_for, Provider,
};

fn participant(cid: &str, game_name: &str, game_tag: &str, name: &str) -> Participant {
    Participant {
        cid: cid.to_string(),
        game_name: game_name.to_string(),
        game_tag: game_tag.to_string(),
        muted: false,
        name: name.to_string(),
        pid: format!("{}@pvp.net", name),
        puuid: format!("puuid-{}", name),
        region: "kr".to_string(),
    }
}

fn pair() -> Vec<Participant> {
    vec![
        participant("room@champ-select.kr", "Faker", "KR1", "faker"),
        participant("room@champ-select.kr", "Hide on bush", "KR1", "hideonbush"),
    ]
}

fn region_info(web_region: &str) -> RegionInfo {
    RegionInfo {
        locale: "en_US".to_string(),
        region: "KR".to_string(),
        web_language: "en".to_string(),
        web_region: web_region.to_string(),
    }
}

#[test]
fn opgg_link_joins_and_encodes() {
    assert_eq!(
        create_opgg_link(&pair(), "KR"),
        "https://www.op.gg/multisearch/KR?summoners=Faker%23KR1%2CHide%20on%20bush%23KR1"
    );
}

#[test]
fn deeplol_link_joins_and_encodes() {
    assert_eq!(
        create_deeplol_link(&pair(), "KR"),
        "https://deeplol.gg/multi/KR/Faker%23KR1%2CHide%20on%20bush%23KR1"
    );
}

#[test]
fn ugg_link_lowers_the_region_and_uses_a_dash() {
    assert_eq!(
        create_ugg_link(&pair(), "EUW1".to_string()),
        "https://u.gg/multisearch?region=euw1&summoners=Faker-KR1%2CHide%20on%20bush-KR1"
    );
    assert_eq!(
        ugg_link_for(&pair(), "EUW1"),
        "https://u.gg/multisearch?region=EUW1&summoners=Faker-KR1%2CHide%20on%20bush-KR1"
    );
}

#[test]
fn tracker_link_joins_and_encodes() {
    assert_eq!(
        create_tracker_link(&pair(), "KR"),
        "https://tracker.gg/lol/multisearch/KR/Faker%23KR1%2CHide%20on%20bush%23KR1"
    );
}

#[test]
fn links_of_no_summoner_and_of_one() {
    assert_eq!(create_opgg_link(&Vec::new(), "NA"), "https://www.op.gg/multisearch/NA?summoners=");
    let one = vec![participant("x", "a_b-c.d~e", "007", "n")];
    assert_eq!(create_tracker_link(&one, "NA"), "https://tracker.gg/lol/multisearch/NA/a_b-c.d~e%23007");
}

#[test]
fn bytes_outside_ascii_are_escaped_one_by_one() {
    let one = vec![participant("x", "é", "ß/", "n")];
    assert_eq!(
        create_deeplol_link(&one, "EUW"),
        "https://deeplol.gg/multi/EUW/%C3%A9%23%C3%9F%2F"
    );
}

#[test]
fn site_names() {
    assert_eq!(Provider::from_name("opgg"), Some(Provider::Opgg));
    assert_eq!(Provider::from_name("deeplol"), Some(Provider::Deeplol));
    assert_eq!(Provider::from_name("ugg"), Some(Provider::Ugg));
    assert_eq!(Provider::from_name("tracker"), Some(Provider::Tracker));
    assert_eq!(Provider::from_name("OPGG"), None);
    assert_eq!(Provider::from_name(""), None);
}

#[test]
fn link_by_site() {
    let lobby = Lobby { participants: pair() };
    assert_eq!(
        champ_select_link(&lobby, "EUW", "ugg"),
        Some("https://u.gg/multisearch?region=euw1&summoners=Faker-KR1%2CHide%20on%20bush-KR1".to_string())
    );
    assert_eq!(
        champ_select_link(&lobby, "EUW", "opgg"),
        Some("https://www.op.gg/multisearch/EUW?summoners=Faker%23KR1%2CHide%20on%20bush%23KR1".to_string())
    );
    assert_eq!(
        multi_search_link(Provider::Deeplol, &lobby.participants, "EUW"),
        "https://deeplol.gg/multi/EUW/Faker%23KR1%2CHide%20on%20bush%23KR1"
    );
    assert_eq!(
        multi_search_link(Provider::Tracker, &lobby.participants, "EUW"),
        "https://tracker.gg/lol/multisearch/EUW/Faker%23KR1%2CHide%20on%20bush%23KR1"
    );
}

#[test]
fn empty_lobby_has_no_link() {
    let lobby = Lobby { participants: Vec::new() };
    assert_eq!(champ_select_link(&lobby, "EUW", "opgg"), None);
    assert_eq!(champ_select_link(&lobby, "EUW", "no such site"), None);
}

#[test]
fn team_line_lists_every_participant() {
    let lobby = Lobby { participants: pair() };
    assert_eq!(team_line(&lobby), "Faker#KR1 (faker), Hide on bush#KR1 (hideonbush)");
    assert_eq!(team_line(&Lobby { participants: Vec::new() }), "");
    let twins = Lobby {
        participants: vec![
            participant("x", "A", "1", "same"),
            participant("x", "B", "2", "other"),
            participant("x", "C", "3", "same"),
        ],
    };
    assert_eq!(team_line(&twins), "A#1 (same)B#2 (other), C#3 (same)");
}

#[test]
fn champ_select_team_keeps_the_champ_select_rooms() {
    let lobby = Lobby {
        participants: vec![
            participant("a@champ-select.kr", "A", "1", "a"),
            participant("b@lobby.kr", "B", "2", "b"),
            participant("champ-select", "C", "3", "c"),
            participant("champ-selec", "D", "4", "d"),
            participant("", "E", "5", "e"),
            participant("xchamp-selectx", "F", "6", "f"),
        ],
    };
    let team = lobby.champ_select_team();
    let names: Vec<&str> = team.participants.iter().map(|p| p.game_name.as_str()).collect();
    assert_eq!(names, vec!["A", "C", "F"]);
    assert_eq!(team.participants[0].cid, "a@champ-select.kr");
    assert_eq!(team.participants[0].pid, "a@pvp.net");
    assert_eq!(lobby.participants.len(), 6);
    assert_eq!(lobby.duplicate().participants.len(), 6);
}

#[test]
fn search_region_renames_sg2() {
    assert_eq!(region_info("SG2").search_region(), "SG");
    assert_eq!(region_info("EUW").search_region(), "EUW");
    assert_eq!(region_info("sg2").search_region(), "sg2");
    assert_eq!(region_info("").search_region(), "");
}

#[test]
fn report_holds_roster_name_and_region() {
    let summoner = Summoner {
        account_id: 1,
        display_name: "Faker".to_string(),
        game_name: "Faker".to_string(),
        internal_name: "faker".to_string(),
        name_change_flag: false,
        percent_complete_for_next_level: 10,
        privacy: "PUBLIC".to_string(),
        profile_icon_id: 6,
        puuid: "p".to_string(),
        reroll_points: RerollPoints {
            current_points: 0,
            max_rolls: 2,
            number_of_rolls: 0,
            points_cost_to_roll: 250,
            points_to_reroll: 250,
        },
        summoner_id: 2,
        summoner_level: 30,
        tag_line: "KR1".to_string(),
        unnamed: false,
        xp_since_last_level: 1,
        xp_until_next_level: 2,
    };
    assert_eq!(summoner.riot_id(), "Faker#KR1");
    let lobby = Lobby { participants: pair() };
    let event = analytics_event(&lobby, &summoner, &region_info("SG2"));
    assert_eq!(event.from, "Faker#KR1");
    assert_eq!(event.region, "SG2");
    assert_eq!(event.select.participants.len(), 2);
    assert_eq!(event.select.participants[1].game_name, "Hide on bush");
    assert_eq!(ANALYTICS_TIMEOUT_SECS, 5);
}

#[test]
fn addresses() {
    assert_eq!(endpoint_url("https://example.org/api", "v1/check"), "https://example.org/api/v1/check");
    assert_eq!(endpoint_url("", ""), "/");
    assert_eq!(user_agent("1.2.3"), "Reveal/1.2.3");
    assert_eq!(GAMEFLOW_PHASE_PATH, "/lol-gameflow/v1/gameflow-phase");
    assert!(QUIT_MATCH_PATH.ends_with("args=[\"\",\"teambuilder-draft\",\"quitV2\",\"\"]"));
}

#[test]
fn quotes_are_stripped_everywhere() {
    assert_eq!(strip_quotes("\"Lobby\""), "Lobby");
    assert_eq!(strip_quotes("Lob\"by"), "Lobby");
    assert_eq!(strip_quotes("\"\"\""), "");
    assert_eq!(strip_quotes(""), "");
    assert_eq!(strip_quotes("'é' x"), "'é' x");
    assert!(same_text("é", "é"));
    assert!(!same_text("abc", "abd"));
    assert!(!same_text("abc", "ab"));
    assert!(same_text("", ""));
}
