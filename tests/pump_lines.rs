use factorio_watch::classify::DomainEvent;
use factorio_watch::log::{LogLevel, LogRecord};
use factorio_watch::notify::delivery_report;
use factorio_watch::pump::{OutputPump, PumpAction, PumpInput};

fn lines(v: &[&str]) -> Vec<String> {
    v.iter().map(|s| s.to_string()).collect()
}

#[test]
fn unrelated_line_is_echoed_without_event() {
    let mut pump = OutputPump::new();
    assert_eq!(pump.feed("Server tick 1000"), "Server tick 1000\n");
    assert_eq!(pump.pending_count(), 0);
    assert_eq!(pump.next_dispatch(), None);
}

#[test]
fn matched_line_is_echoed_and_queued() {
    let mut pump = OutputPump::new();
    assert_eq!(
        pump.feed("[JOIN] Alice joined the game"),
        "[JOIN] Alice joined the game\n"
    );
    assert_eq!(pump.pending_count(), 1);
    assert_eq!(
        pump.next_dispatch(),
        Some(DomainEvent::Join { actor_name: "Alice".to_string() })
    );
    assert_eq!(pump.pending_count(), 0);
}

#[test]
fn echoes_keep_input_order() {
    let mut pump = OutputPump::new();
    pump.feed("[LEAVE] Zed left the game");
    let input = lines(&[
        "a",
        "[JOIN] Alice joined the game",
        "b",
        "[LEAVE] Bob left the game",
        "[JOIN] Carol joined the game",
        "c",
    ]);
    let echoes = pump.feed_all(&input);
    let expected: Vec<String> = input.iter().map(|l| format!("{}\n", l)).collect();
    assert_eq!(echoes, expected);
    assert_eq!(pump.pending_count(), 4);
    let mut names = Vec::new();
    while let Some(e) = pump.next_dispatch() {
        names.push(e.actor_name().clone());
    }
    assert_eq!(names, vec!["Zed", "Alice", "Bob", "Carol"]);
}

#[test]
fn feeding_no_lines_changes_nothing() {
    let mut pump = OutputPump::new();
    let echoes = pump.feed_all(&Vec::new());
    assert!(echoes.is_empty());
    assert_eq!(pump.pending_count(), 0);
}

#[test]
fn delivery_failure_does_not_interrupt_pumping() {
    let mut pump = OutputPump::new();
    let first = pump.on_input(PumpInput::Line("[JOIN] Alice joined the game".to_string()));
    assert_eq!(first, PumpAction::Echo("[JOIN] Alice joined the game\n".to_string()));
    let event = pump.next_dispatch().unwrap();
    let report = delivery_report(&event, Err("timeout".to_string()));
    assert_eq!(report.level, LogLevel::Error);
    let second = pump.on_input(PumpInput::Line("[LEAVE] Bob left the game".to_string()));
    assert_eq!(second, PumpAction::Echo("[LEAVE] Bob left the game\n".to_string()));
    assert_eq!(
        pump.next_dispatch(),
        Some(DomainEvent::Leave { actor_name: "Bob".to_string() })
    );
    let third = pump.on_input(PumpInput::Line("Server tick 1000".to_string()));
    assert_eq!(third, PumpAction::Echo("Server tick 1000\n".to_string()));
}

#[test]
fn end_of_stream_stops_pump() {
    let mut pump = OutputPump::new();
    assert_eq!(pump.on_input(PumpInput::End), PumpAction::Stop);
}

#[test]
fn read_failure_stops_pump_with_error() {
    let mut pump = OutputPump::new();
    assert_eq!(
        pump.on_input(PumpInput::ReadFailed("invalid UTF-8".to_string())),
        PumpAction::Fail(LogRecord {
            level: LogLevel::Error,
            text: "failed to read a line: invalid UTF-8".to_string(),
        })
    );
}
