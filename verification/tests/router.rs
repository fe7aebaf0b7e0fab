//! Tests of the event router's drive-loop step.

use lost_metrics::background_worker::{route_step, ProcessorCommand, RouterEvent};
use lost_metrics::models::ProcessState;

#[test]
fn message_is_adopted_and_heartbeat_published() {
    let mut displayed = ProcessState::Unknown;
    let step = route_step(&mut displayed, RouterEvent::Message(ProcessState::ProcessRunning), 100);
    assert!(!step.exit);
    let heartbeat = step.heartbeat.unwrap();
    assert_eq!(heartbeat.checked_on, 100);
    assert_eq!(heartbeat.state, ProcessState::ProcessRunning);
    assert!(step.command.is_none());
    assert_eq!(displayed, ProcessState::ProcessRunning);
}

#[test]
fn listening_message_starts_the_processor() {
    let mut displayed = ProcessState::ProcessRunning;
    let step = route_step(
        &mut displayed,
        RouterEvent::Message(ProcessState::ProcessListening(String::from("EU"))),
        200,
    );
    assert!(!step.exit);
    match step.command {
        Some(ProcessorCommand::Start(region)) => assert_eq!(region, String::from("EU")),
        other => panic!("expected a start command, got {:?}", other),
    }
    assert_eq!(displayed, ProcessState::ProcessListening(String::from("EU")));
}

#[test]
fn stopped_message_stops_the_processor() {
    let mut displayed = ProcessState::ProcessListening(String::from("EU"));
    let step = route_step(&mut displayed, RouterEvent::Message(ProcessState::ProcesStopped), 300);
    assert!(matches!(step.command, Some(ProcessorCommand::Stop)));
    assert_eq!(displayed, ProcessState::ProcesStopped);
}

#[test]
fn timeout_with_live_watcher_heartbeats_last_state() {
    let mut displayed = ProcessState::ProcessListening(String::from("EU"));
    let step = route_step(&mut displayed, RouterEvent::TimedOut { watcher_running: true }, 400);
    assert!(!step.exit);
    let heartbeat = step.heartbeat.unwrap();
    assert_eq!(heartbeat.checked_on, 400);
    assert_eq!(heartbeat.state, ProcessState::ProcessListening(String::from("EU")));
    assert!(step.command.is_none());
    assert_eq!(displayed, ProcessState::ProcessListening(String::from("EU")));
}

#[test]
fn silent_ticks_still_heartbeat_with_increasing_timestamps() {
    let mut displayed = ProcessState::ProcessNotListening;
    let mut stamps: Vec<u64> = Vec::new();
    let mut now: u64 = 1000;
    for _ in 0..3 {
        let step = route_step(&mut displayed, RouterEvent::TimedOut { watcher_running: true }, now);
        let heartbeat = step.heartbeat.unwrap();
        assert_eq!(heartbeat.state, ProcessState::ProcessNotListening);
        stamps.push(heartbeat.checked_on);
        now += 2000;
    }
    assert_eq!(stamps, vec![1000, 3000, 5000]);
    assert!(stamps[0] < stamps[1] && stamps[1] < stamps[2]);
}

#[test]
fn timeout_with_dead_watcher_exits_without_heartbeat() {
    let mut displayed = ProcessState::ProcessNotListening;
    let step = route_step(&mut displayed, RouterEvent::TimedOut { watcher_running: false }, 500);
    assert!(step.exit);
    assert!(step.heartbeat.is_none());
    assert!(step.command.is_none());
    assert_eq!(displayed, ProcessState::ProcessNotListening);
}
