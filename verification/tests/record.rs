use league_record::events::CanonicalEvent;
use league_record::record::{make_game_info, PlayerInfo, SessionRecord};

#[test]
fn outcome_is_write_once_first_writer_wins() {
    let mut r = SessionRecord::new("out/rec".to_string());
    assert_eq!(r.win, None);
    r.set_outcome(true);
    assert_eq!(r.win, Some(true));
    // the post-game query disagreeing cannot overwrite the in-stream result
    r.set_outcome(false);
    assert_eq!(r.win, Some(true));
}

#[test]
fn events_append_in_arrival_order() {
    let mut r = SessionRecord::new("out/rec".to_string());
    r.push_event(CanonicalEvent::Kill, 1_000);
    r.push_event(CanonicalEvent::Baron, 1_000);
    r.push_event(CanonicalEvent::Death, 2_500);
    assert_eq!(r.events.len(), 3);
    assert_eq!(r.events[0].name, CanonicalEvent::Kill);
    assert_eq!(r.events[0].time_ms, 1_000);
    assert_eq!(r.events[1].name, CanonicalEvent::Baron);
    assert_eq!(r.events[2].time_ms, 2_500);
    // timestamps are non-decreasing
    for w in r.events.windows(2) {
        assert!(w[0].time_ms <= w[1].time_ms);
    }
}

#[test]
fn stats_install_and_path_is_fixed_at_construction() {
    let mut r = SessionRecord::new("out/rec".to_string());
    assert_eq!(r.output_path, "out/rec");
    assert!(r.stats.is_none());
    r.set_stats("{\"kills\":3}".to_string());
    assert_eq!(r.stats, Some("{\"kills\":3}".to_string()));
}

#[test]
fn snapshot_picks_the_active_player() {
    let players = vec![
        PlayerInfo { summoner_name: "A".to_string(), champion_name: "Ahri".to_string() },
        PlayerInfo { summoner_name: "B".to_string(), champion_name: "Braum".to_string() },
    ];
    let info = make_game_info("CLASSIC".to_string(), "B".to_string(), &players).unwrap();
    assert_eq!(info.game_mode, "CLASSIC");
    assert_eq!(info.summoner_name, "B");
    assert_eq!(info.champion_name, "Braum");
}

#[test]
fn snapshot_takes_the_first_of_equal_names() {
    let players = vec![
        PlayerInfo { summoner_name: "A".to_string(), champion_name: "Ahri".to_string() },
        PlayerInfo { summoner_name: "A".to_string(), champion_name: "Akali".to_string() },
    ];
    let info = make_game_info("ARAM".to_string(), "A".to_string(), &players).unwrap();
    assert_eq!(info.champion_name, "Ahri");
}

#[test]
fn snapshot_fails_when_active_player_is_unlisted() {
    let players = vec![PlayerInfo {
        summoner_name: "A".to_string(),
        champion_name: "Ahri".to_string(),
    }];
    assert!(make_game_info("CLASSIC".to_string(), "Z".to_string(), &players).is_none());
    let nobody: Vec<PlayerInfo> = Vec::new();
    assert!(make_game_info("CLASSIC".to_string(), "Z".to_string(), &nobody).is_none());
}
