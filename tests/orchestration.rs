use pwbot::command::Direction;
use pwbot::instance::InstanceDescriptor;
use pwbot::orchestration::{endpoint, Action, ControlCall, Event, Orchestration, Phase, POLL_INTERVAL_SECS};

/// What a scripted run of an orchestration did.
#[derive(Default)]
struct Log {
    calls: Vec<ControlCall>,
    said: Vec<String>,
    sleeps: Vec<u64>,
    finished: bool,
}

/// Runs an orchestration against a scripted control plane: `fail` lists the
/// calls that fail in transport, `statuses` the successive status replies.
fn run(direction: Direction, fail: &[ControlCall], statuses: &[&str], ip: &str) -> Log {
    let mut log = Log::default();
    let (mut o, mut action) = Orchestration::new(direction);
    let mut next_status = 0;
    loop {
        let event = match action {
            Action::Control(c) => {
                log.calls.push(c);
                if fail.contains(&c) {
                    Event::TransportFailed
                } else {
                    match c {
                        ControlCall::Start | ControlCall::Stop => Event::Accepted,
                        ControlCall::Status => {
                            let s = statuses[next_status];
                            next_status += 1;
                            Event::Status(s.to_string())
                        }
                        ControlCall::Ip => Event::Address(ip.to_string()),
                    }
                }
            }
            Action::Say(s) => {
                log.said.push(s);
                Event::Delivered
            }
            Action::Sleep(n) => {
                log.sleeps.push(n);
                Event::Slept
            }
            Action::Finish => {
                log.finished = true;
                break;
            }
            Action::Abort => break,
        };
        action = o.on_event(event);
    }
    log
}

#[test]
fn poll_returns_after_three_queries_and_two_sleeps() {
    let log = run(Direction::Start, &[], &["STOPPED", "STOPPED", "RUNNING"], "1.2.3.4");
    let queries = log.calls.iter().filter(|c| **c == ControlCall::Status).count();
    assert_eq!(queries, 3);
    assert_eq!(log.sleeps, vec![POLL_INTERVAL_SECS, POLL_INTERVAL_SECS]);
    assert_eq!(POLL_INTERVAL_SECS, 5);
    assert!(log.finished);
}

#[test]
fn start_reports_address_with_port() {
    let log = run(Direction::Start, &[], &["RUNNING"], "1.2.3.4");
    assert_eq!(log.calls, vec![ControlCall::Start, ControlCall::Status, ControlCall::Ip]);
    assert_eq!(log.said.len(), 2);
    assert_eq!(log.said[0], "palworldのサーバーを起動中...");
    assert!(log.said[1].contains("1.2.3.4:8211"));
    assert_eq!(log.said[1], "起動が完了しました。1.2.3.4:8211");
    assert!(log.finished);
}

#[test]
fn stop_failure_sends_nothing_and_never_polls() {
    let log = run(Direction::Stop, &[ControlCall::Stop], &[], "");
    assert_eq!(log.calls, vec![ControlCall::Stop]);
    assert!(log.said.is_empty());
    assert!(!log.finished);
}

#[test]
fn stop_completes_on_terminated() {
    let log = run(Direction::Stop, &[], &["STOPPING", "TERMINATED"], "");
    assert_eq!(log.calls, vec![ControlCall::Stop, ControlCall::Status, ControlCall::Status]);
    assert_eq!(log.said, vec!["palworldのサーバーを停止中...".to_string(), "停止が完了しました。".to_string()]);
    assert_eq!(log.sleeps.len(), 1);
    assert!(log.finished);
}

#[test]
fn start_failure_on_status_or_ip_aborts() {
    let log = run(Direction::Start, &[ControlCall::Status], &[], "");
    assert_eq!(log.said.len(), 1);
    assert!(!log.finished);
    let log = run(Direction::Start, &[ControlCall::Ip], &["RUNNING"], "");
    assert_eq!(log.said.len(), 1);
    assert!(!log.finished);
}

#[test]
fn two_starts_run_independently() {
    let (mut a, first_a) = Orchestration::new(Direction::Start);
    let (mut b, first_b) = Orchestration::new(Direction::Start);
    assert!(matches!(first_a, Action::Control(ControlCall::Start)));
    assert!(matches!(first_b, Action::Control(ControlCall::Start)));
    assert!(matches!(a.on_event(Event::Accepted), Action::Say(_)));
    assert_eq!(b.phase, Phase::Requesting);
    assert!(matches!(b.on_event(Event::Accepted), Action::Say(_)));
    assert!(matches!(a.on_event(Event::Delivered), Action::Control(ControlCall::Status)));
    assert!(matches!(b.on_event(Event::Delivered), Action::Control(ControlCall::Status)));
    assert_eq!(a, b);
    let log_a = run(Direction::Start, &[], &["RUNNING"], "1.2.3.4");
    let log_b = run(Direction::Start, &[], &["RUNNING"], "1.2.3.4");
    assert_eq!(log_a.calls, log_b.calls);
}

#[test]
fn unexpected_event_abandons() {
    let (mut o, _) = Orchestration::new(Direction::Start);
    assert!(matches!(o.on_event(Event::Slept), Action::Abort));
    assert_eq!(o.phase, Phase::Failed);
    assert!(o.is_over());
    assert!(matches!(o.on_event(Event::Accepted), Action::Abort));
}

#[test]
fn endpoints() {
    assert_eq!(endpoint("http://api", ControlCall::Start), "http://api/instance/start");
    assert_eq!(endpoint("http://api", ControlCall::Stop), "http://api/instance/stop");
    assert_eq!(endpoint("http://api", ControlCall::Status), "http://api/instance/status");
    assert_eq!(endpoint("http://api", ControlCall::Ip), "http://api/instance/ip");
}

#[test]
fn palworld_descriptor() {
    let d = InstanceDescriptor::palworld();
    assert_eq!(d.name, "palworld1");
    assert_eq!(d.project, "droprealms");
    assert_eq!(d.zone, "asia-northeast1-b");
}
