use factorio_watch::cancel::CancellationToken;
use factorio_watch::invocation::{parse_invocation, usage_text, Invocation};
use factorio_watch::log::{LogLevel, LogRecord};
use factorio_watch::supervisor::{
    Phase, SupervisionAction, SupervisionError, SupervisionEvent, Supervisor,
};

fn args(v: &[&str]) -> Vec<String> {
    v.iter().map(|s| s.to_string()).collect()
}

#[test]
fn second_firing_is_a_no_op() {
    let mut token = CancellationToken::new();
    assert!(!token.is_fired());
    assert!(token.fire());
    assert!(token.is_fired());
    assert!(!token.fire());
    assert!(token.is_fired());
}

#[test]
fn cancellation_waits_for_natural_exit() {
    let mut s = Supervisor::new();
    assert_eq!(s.step(SupervisionEvent::Spawned), SupervisionAction::StartPump);
    assert_eq!(s.phase(), Phase::Running);
    let stop = s.step(SupervisionEvent::CancelRequested);
    assert_eq!(stop, SupervisionAction::AwaitExit);
    assert_eq!(stop.log_record().unwrap().level, LogLevel::Info);
    assert!(!s.is_finished());
    assert_eq!(s.step(SupervisionEvent::CancelRequested), SupervisionAction::Ignore);
    assert!(!s.is_finished());
    let done = s.step(SupervisionEvent::ChildExited("exit status: 0".to_string()));
    assert_eq!(done, SupervisionAction::ReportExit("exit status: 0".to_string()));
    assert!(s.is_finished());
    assert_eq!(
        done.log_record(),
        Some(LogRecord {
            level: LogLevel::Info,
            text: "server exited with: exit status: 0".to_string(),
        })
    );
}

#[test]
fn natural_exit_is_reported_at_once() {
    let mut s = Supervisor::new();
    s.step(SupervisionEvent::Spawned);
    let done = s.step(SupervisionEvent::ChildExited("exit status: 3".to_string()));
    assert_eq!(done, SupervisionAction::ReportExit("exit status: 3".to_string()));
    assert_eq!(s.phase(), Phase::Finished);
    assert_eq!(s.step(SupervisionEvent::CancelRequested), SupervisionAction::Ignore);
    assert_eq!(s.phase(), Phase::Finished);
}

#[test]
fn spawn_failure_ends_supervision() {
    let mut s = Supervisor::new();
    let a = s.step(SupervisionEvent::SpawnFailed("not found".to_string()));
    assert_eq!(
        a,
        SupervisionAction::Fail(SupervisionError::Spawn("not found".to_string()))
    );
    assert!(s.is_finished());
    assert_eq!(
        a.log_record(),
        Some(LogRecord {
            level: LogLevel::Error,
            text: "failed to start the server: not found".to_string(),
        })
    );
}

#[test]
fn wait_failure_ends_supervision() {
    let mut s = Supervisor::new();
    s.step(SupervisionEvent::Spawned);
    s.step(SupervisionEvent::CancelRequested);
    let a = s.step(SupervisionEvent::WaitFailed("interrupted".to_string()));
    assert_eq!(
        a,
        SupervisionAction::Fail(SupervisionError::Wait("interrupted".to_string()))
    );
    assert!(s.is_finished());
    assert_eq!(
        a.log_record().unwrap().text,
        "failed to wait for the server: interrupted"
    );
}

#[test]
fn start_pump_logs_nothing() {
    assert_eq!(SupervisionAction::StartPump.log_record(), None);
    assert_eq!(SupervisionAction::Ignore.log_record(), None);
}

#[test]
fn too_few_arguments_give_usage() {
    assert_eq!(parse_invocation(&args(&["watch"])), None);
    assert_eq!(parse_invocation(&args(&["watch", "/bin/server"])), None);
    assert_eq!(parse_invocation(&Vec::new()), None);
    assert_eq!(
        usage_text("watch"),
        "Usage: watch <factorio_path> <endpoint> <factorio_args>"
    );
}

#[test]
fn arguments_are_split() {
    assert_eq!(
        parse_invocation(&args(&["watch", "/bin/server", "https://h", "--start", "map"])),
        Some(Invocation {
            executable_path: "/bin/server".to_string(),
            endpoint: "https://h".to_string(),
            child_args: args(&["--start", "map"]),
        })
    );
    let bare = parse_invocation(&args(&["watch", "/bin/server", "https://h"])).unwrap();
    assert!(bare.child_args.is_empty());
}
