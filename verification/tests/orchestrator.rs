use league_record::capture::CaptureState;
use league_record::collector::{CollectorInput, CollectorPhase};
use league_record::events::{
    CanonicalEvent, ChampionKillInfo, GameResult, IngameEvent,
};
use league_record::orchestrator::{Action, Orchestrator, OrchestratorInput};
use league_record::record::GameInfo;

fn tick(m: &mut Orchestrator, window_present: bool) -> Action {
    m.step(OrchestratorInput::Tick { window_present })
}

fn feed(m: &mut Orchestrator, ci: CollectorInput) -> Action {
    m.step(OrchestratorInput::Collector(ci))
}

fn snapshot() -> GameInfo {
    GameInfo {
        game_mode: "CLASSIC".to_string(),
        summoner_name: "TrackedPlayer".to_string(),
        champion_name: "Ahri".to_string(),
    }
}

/// Drives a fresh orchestrator up to the point where the engine is asked to
/// start: window found, handle configured, collector spawned, match
/// confirmed, not spectated, snapshot installed.
fn drive_to_start_request(m: &mut Orchestrator) {
    assert!(matches!(tick(m, true), Action::Configure));
    assert!(matches!(
        m.step(OrchestratorInput::ConfigureDone("videos/match".to_string())),
        Action::Idle
    ));
    assert!(matches!(tick(m, true), Action::SpawnCollector));
    assert!(matches!(feed(m, CollectorInput::MatchInactive), Action::Idle));
    assert!(matches!(feed(m, CollectorInput::MatchInactive), Action::Idle));
    assert!(matches!(feed(m, CollectorInput::MatchActive), Action::Idle));
    assert!(matches!(feed(m, CollectorInput::SpectatorNo), Action::Idle));
    assert!(matches!(feed(m, CollectorInput::SnapshotOk(snapshot())), Action::RequestCaptureStart));
    assert!(!m.is_recording());
}

#[test]
fn full_session_persists_kill_outcome_and_stats() {
    let mut m = Orchestrator::new();
    drive_to_start_request(&mut m);

    assert!(matches!(feed(&mut m, CollectorInput::CaptureStarted), Action::MarkRecording));
    assert!(m.is_recording());

    let kill = IngameEvent::ChampionKill(ChampionKillInfo {
        killer: Some("TrackedPlayer".to_string()),
        victim: "Other".to_string(),
        assisters: vec![],
    });
    assert!(matches!(feed(&mut m, CollectorInput::StreamEvent(kill, 45_200)), Action::Idle));
    assert!(matches!(
        feed(&mut m, CollectorInput::StreamEvent(IngameEvent::MatchEnd(GameResult::Win), 45_900)),
        Action::Idle
    ));

    // the window disappears: teardown stops the handle, the task winds down
    assert!(matches!(tick(&mut m, false), Action::Teardown));
    assert!(!m.is_recording());
    assert!(matches!(m.capture, CaptureState::Absent));

    assert!(matches!(feed(&mut m, CollectorInput::StreamEnded), Action::Idle));
    assert!(matches!(feed(&mut m, CollectorInput::SubscribeOk), Action::Idle));
    let a = feed(
        &mut m,
        CollectorInput::PostGameStats {
            has_win: false,
            has_lose: false,
            stats: Some("{\"kills\":1}".to_string()),
        },
    );
    assert!(matches!(a, Action::Persist));

    let rec = m.session_record().expect("a completed session keeps its record");
    assert_eq!(rec.output_path, "videos/match");
    assert_eq!(rec.game_info.game_mode, "CLASSIC");
    assert_eq!(rec.game_info.champion_name, "Ahri");
    assert_eq!(rec.events.len(), 1);
    assert_eq!(rec.events[0].name, CanonicalEvent::Kill);
    assert_eq!(rec.events[0].time_ms, 45_200);
    assert_eq!(rec.win, Some(true));
    assert_eq!(rec.stats, Some("{\"kills\":1}".to_string()));
    assert!(matches!(m.capture, CaptureState::Absent));
}

#[test]
fn post_game_outcome_fills_in_only_when_stream_gave_none() {
    let mut m = Orchestrator::new();
    drive_to_start_request(&mut m);
    assert!(matches!(feed(&mut m, CollectorInput::CaptureStarted), Action::MarkRecording));
    // no match-end event arrives in the stream
    assert!(matches!(feed(&mut m, CollectorInput::StreamEnded), Action::Idle));
    assert!(matches!(feed(&mut m, CollectorInput::SubscribeOk), Action::Idle));
    let a = feed(
        &mut m,
        CollectorInput::PostGameStats { has_win: false, has_lose: true, stats: None },
    );
    assert!(matches!(a, Action::Persist));
    let rec = m.session_record().unwrap();
    assert_eq!(rec.win, Some(false));
    assert!(rec.stats.is_none());
}

#[test]
fn start_failure_stops_defensively_and_reconfigures_next_tick() {
    let mut m = Orchestrator::new();
    drive_to_start_request(&mut m);

    // the engine refuses to start: stop is still invoked, the handle is
    // discarded, nothing is persisted
    assert!(matches!(feed(&mut m, CollectorInput::CaptureStartFailed), Action::StopCapture));
    assert!(!m.is_recording());
    assert!(matches!(m.capture, CaptureState::Absent));
    assert!(m.session_record().is_none());

    // the next tick retries configuration from scratch
    assert!(matches!(tick(&mut m, true), Action::Configure));
}

#[test]
fn spectator_match_never_starts_recording() {
    let mut m = Orchestrator::new();
    assert!(matches!(tick(&mut m, true), Action::Configure));
    m.step(OrchestratorInput::ConfigureDone("videos/spec".to_string()));
    assert!(matches!(tick(&mut m, true), Action::SpawnCollector));
    assert!(matches!(feed(&mut m, CollectorInput::MatchActive), Action::Idle));
    assert!(!m.is_recording());
    assert!(matches!(feed(&mut m, CollectorInput::SpectatorYes), Action::Idle));
    assert!(!m.is_recording());
    assert!(m.session_record().is_none());
    assert!(matches!(m.capture, CaptureState::Configured));
}

#[test]
fn cancelled_before_match_confirmed_persists_nothing() {
    let mut m = Orchestrator::new();
    assert!(matches!(tick(&mut m, true), Action::Configure));
    m.step(OrchestratorInput::ConfigureDone("videos/gone".to_string()));
    assert!(matches!(tick(&mut m, true), Action::SpawnCollector));
    // the window disappears while the task still polls for a match
    assert!(matches!(tick(&mut m, false), Action::Teardown));
    let a = feed(&mut m, CollectorInput::Cancelled);
    assert!(!matches!(a, Action::Persist));
    assert!(m.session_record().is_none());
    assert!(m.collector_phase().is_none());
}

#[test]
fn cancel_while_waiting_on_post_game_finishes_at_once() {
    let mut m = Orchestrator::new();
    drive_to_start_request(&mut m);
    assert!(matches!(feed(&mut m, CollectorInput::CaptureStarted), Action::MarkRecording));
    assert!(matches!(feed(&mut m, CollectorInput::StreamEnded), Action::Idle));
    assert!(matches!(feed(&mut m, CollectorInput::SubscribeOk), Action::Idle));
    assert_eq!(m.collector_phase(), Some(CollectorPhase::PostGameAwait));

    assert!(matches!(tick(&mut m, false), Action::Teardown));
    // cancellation is observed at the suspension point and the session is
    // terminal in that same step, with the record persisted as it stands
    let a = feed(&mut m, CollectorInput::Cancelled);
    assert!(matches!(a, Action::Persist));
    assert!(matches!(m.collector_phase(), Some(CollectorPhase::Done(_))));
    let rec = m.session_record().unwrap();
    assert_eq!(rec.win, None);
    assert!(rec.stats.is_none());
    // the loop keeps ticking; nothing blocks
    assert!(matches!(tick(&mut m, false), Action::Teardown));
    assert!(m.session_record().is_none());
}

#[test]
fn subscription_failure_still_persists_the_record() {
    let mut m = Orchestrator::new();
    drive_to_start_request(&mut m);
    assert!(matches!(feed(&mut m, CollectorInput::CaptureStarted), Action::MarkRecording));
    assert!(matches!(feed(&mut m, CollectorInput::StreamEnded), Action::Idle));
    assert!(matches!(feed(&mut m, CollectorInput::SubscribeFailed), Action::Persist));
    assert!(m.session_record().is_some());
}

#[test]
fn post_game_timeout_still_persists_the_record() {
    let mut m = Orchestrator::new();
    drive_to_start_request(&mut m);
    assert!(matches!(feed(&mut m, CollectorInput::CaptureStarted), Action::MarkRecording));
    assert!(matches!(feed(&mut m, CollectorInput::StreamEnded), Action::Idle));
    assert!(matches!(feed(&mut m, CollectorInput::SubscribeOk), Action::Idle));
    assert!(matches!(feed(&mut m, CollectorInput::PostGameTimeout), Action::Persist));
    let rec = m.session_record().unwrap();
    assert_eq!(rec.win, None);
}

#[test]
fn aborted_task_leaves_no_record_behind() {
    let mut m = Orchestrator::new();
    drive_to_start_request(&mut m);
    assert!(matches!(feed(&mut m, CollectorInput::CaptureStarted), Action::MarkRecording));
    assert!(matches!(tick(&mut m, false), Action::Teardown));
    // the task ignored cancellation and was forcibly aborted
    assert!(matches!(feed(&mut m, CollectorInput::Aborted), Action::Idle));
    assert!(m.session_record().is_none());
    assert!(!m.is_recording());
}

#[test]
fn snapshot_after_teardown_finds_no_capture_to_start() {
    let mut m = Orchestrator::new();
    assert!(matches!(tick(&mut m, true), Action::Configure));
    m.step(OrchestratorInput::ConfigureDone("videos/raced".to_string()));
    assert!(matches!(tick(&mut m, true), Action::SpawnCollector));
    assert!(matches!(feed(&mut m, CollectorInput::MatchActive), Action::Idle));
    assert!(matches!(feed(&mut m, CollectorInput::SpectatorNo), Action::Idle));
    // the window vanishes while the snapshot is still in flight
    assert!(matches!(tick(&mut m, false), Action::Teardown));
    // the late snapshot cannot ask for a capture start: the handle is gone
    let a = feed(&mut m, CollectorInput::SnapshotOk(snapshot()));
    assert!(matches!(a, Action::Idle));
    assert!(m.session_record().is_none());
    assert!(!m.is_recording());
}

#[test]
fn shutdown_tears_down_and_stops_the_loop() {
    let mut m = Orchestrator::new();
    drive_to_start_request(&mut m);
    assert!(matches!(feed(&mut m, CollectorInput::CaptureStarted), Action::MarkRecording));
    assert!(m.is_recording());
    assert!(!m.is_shutting_down());

    assert!(matches!(m.step(OrchestratorInput::Shutdown), Action::Teardown));
    assert!(m.is_shutting_down());
    assert!(!m.is_recording());
    assert!(matches!(m.capture, CaptureState::Absent));
    // further ticks decide nothing
    assert!(matches!(tick(&mut m, true), Action::Idle));
}

#[test]
fn steady_states_are_no_ops() {
    let mut m = Orchestrator::new();
    // idle with no window
    assert!(matches!(tick(&mut m, false), Action::Idle));
    // window present with a running session: no-op
    drive_to_start_request(&mut m);
    assert!(matches!(tick(&mut m, true), Action::Idle));
    // a failed configuration changes nothing
    let mut fresh = Orchestrator::new();
    assert!(matches!(tick(&mut fresh, true), Action::Configure));
    assert!(matches!(fresh.step(OrchestratorInput::ConfigureFailed), Action::Idle));
    assert!(matches!(fresh.capture, CaptureState::Absent));
    assert!(matches!(tick(&mut fresh, true), Action::Configure));
}
