use tunwatch::classifier::LineClassifier;
use tunwatch::dns::DnsTarget;
use tunwatch::level::Level;
use tunwatch::supervisor::{
    on_interrupt, Action, ChildStatus, Event, InterruptAction, Outcome, Phase, Supervisor,
};

const ANNOUNCE: &str =
    r#"time="2024-05-01T12:00:01.250000+08:00" level=info msg="[TUN] Tun adapter listening at: utun4""#;
const PLAIN: &str = r#"time="2024-05-01T12:00:00.100200+08:00" level=debug msg="loading""#;

fn supervisor() -> Supervisor {
    Supervisor::new(LineClassifier::new().expect("the line pattern compiles"))
}

fn line(s: &str) -> Event {
    Event::Line(s.to_string())
}

fn count_dns(actions: &[Action], target: DnsTarget) -> usize {
    actions.iter().filter(|a| matches!(a, Action::SetDns(t) if *t == target)).count()
}

fn position(actions: &[Action], wanted: fn(&Action) -> bool) -> Option<usize> {
    actions.iter().position(wanted)
}

#[test]
fn run_starts_in_starting() {
    assert_eq!(supervisor().phase(), Phase::Starting);
}

#[test]
fn natural_exit_restores_dns_once_then_exits_zero() {
    let mut s = supervisor();
    assert!(s.handle(&Event::Started).is_empty());
    assert_eq!(s.phase(), Phase::Running);
    let a = s.handle(&line(PLAIN));
    assert_eq!(a.len(), 1);
    assert!(matches!(&a[0], Action::Emit(r) if r.level == Level::Debug
        && r.text == "2024-05-01T12:00:00.100+08:00 loading"));
    let a = s.handle(&Event::OutputClosed);
    assert_eq!(s.phase(), Phase::Terminating(Outcome::Completed));
    assert_eq!(a.len(), 1);
    assert!(matches!(a[0], Action::SetDns(DnsTarget::Restore)));
    let a = s.handle(&Event::Restored);
    assert_eq!(s.phase(), Phase::Stopped(Outcome::Completed));
    assert_eq!(a.len(), 1);
    assert!(matches!(a[0], Action::Exit(Outcome::Completed)));
    assert_eq!(Outcome::Completed.exit_code(), 0);
}

#[test]
fn startup_failure_restores_dns_once_then_exits_nonzero() {
    let mut s = supervisor();
    let a = s.handle(&Event::StartFailed);
    assert_eq!(s.phase(), Phase::Terminating(Outcome::StartupFailed));
    assert_eq!(a.len(), 1);
    assert!(matches!(a[0], Action::SetDns(DnsTarget::Restore)));
    let a = s.handle(&Event::Restored);
    assert_eq!(s.phase(), Phase::Stopped(Outcome::StartupFailed));
    assert_eq!(a.len(), 1);
    assert!(matches!(a[0], Action::Exit(Outcome::StartupFailed)));
    assert_ne!(Outcome::StartupFailed.exit_code(), 0);
    assert_eq!(Outcome::StartupFailed.exit_code(), 1);
}

#[test]
fn announcing_line_activates_dns_and_is_still_logged() {
    let mut s = supervisor();
    s.handle(&Event::Started);
    let a = s.handle(&line(ANNOUNCE));
    assert_eq!(a.len(), 3);
    assert!(matches!(a[0], Action::Notice));
    assert!(matches!(a[1], Action::SetDns(DnsTarget::Activate)));
    assert!(matches!(&a[2], Action::Emit(r) if r.level == Level::Info
        && r.text == "2024-05-01T12:00:01.250+08:00 [TUN] Tun adapter listening at: utun4"));
    assert_eq!(s.phase(), Phase::Running);
}

#[test]
fn unstructured_announcing_line_activates_dns_and_is_dropped() {
    let mut s = supervisor();
    s.handle(&Event::Started);
    let a = s.handle(&line("[TUN] Tun adapter listening at: utun9"));
    assert_eq!(a.len(), 2);
    assert!(matches!(a[0], Action::Notice));
    assert!(matches!(a[1], Action::SetDns(DnsTarget::Activate)));
}

#[test]
fn unstructured_line_asks_for_nothing() {
    let mut s = supervisor();
    s.handle(&Event::Started);
    assert!(s.handle(&line("panic: something odd")).is_empty());
    assert!(s.handle(&line("")).is_empty());
    assert_eq!(s.phase(), Phase::Running);
}

#[test]
fn each_announcement_activates_once() {
    let mut s = supervisor();
    let events = vec![
        Event::Started,
        line(PLAIN),
        line(ANNOUNCE),
        line("noise"),
        line(ANNOUNCE),
        line(PLAIN),
        line("[TUN] Tun adapter listening at: utun5"),
        Event::OutputClosed,
        Event::Restored,
    ];
    let actions = s.replay(&events);
    assert_eq!(s.phase(), Phase::Stopped(Outcome::Completed));
    assert_eq!(count_dns(&actions, DnsTarget::Activate), 3);
    assert_eq!(count_dns(&actions, DnsTarget::Restore), 1);
    assert_eq!(actions.iter().filter(|a| matches!(a, Action::Notice)).count(), 3);
    assert_eq!(actions.iter().filter(|a| matches!(a, Action::Emit(_))).count(), 4);
    assert_eq!(actions.iter().filter(|a| matches!(a, Action::Exit(_))).count(), 1);
    let restore = position(&actions, |a| matches!(a, Action::SetDns(DnsTarget::Restore))).unwrap();
    assert_eq!(restore, actions.len() - 2);
    assert!(matches!(actions[actions.len() - 1], Action::Exit(Outcome::Completed)));
}

#[test]
fn replay_agrees_with_single_steps() {
    let events = vec![Event::Started, line(ANNOUNCE), Event::OutputClosed, Event::Restored];
    let mut whole = supervisor();
    let all = whole.replay(&events);
    let mut step = supervisor();
    let mut one_by_one: Vec<Action> = Vec::new();
    for e in &events {
        one_by_one.extend(step.handle(e));
    }
    assert_eq!(format!("{:?}", all), format!("{:?}", one_by_one));
    assert_eq!(whole.phase(), step.phase());
}

#[test]
fn interrupted_run_ends_like_a_natural_one() {
    // The handler kills the engine; the run then sees its output close.
    assert_eq!(on_interrupt(ChildStatus::Running), InterruptAction::Kill);
    let mut s = supervisor();
    let actions = s.replay(&vec![Event::Started, line(ANNOUNCE), Event::OutputClosed, Event::Restored]);
    assert_eq!(count_dns(&actions, DnsTarget::Activate), 1);
    assert_eq!(count_dns(&actions, DnsTarget::Restore), 1);
    assert_eq!(s.phase(), Phase::Stopped(Outcome::Completed));
}

#[test]
fn nothing_happens_after_the_run_is_over() {
    let mut s = supervisor();
    s.replay(&vec![Event::Started, Event::OutputClosed]);
    assert_eq!(s.phase(), Phase::Terminating(Outcome::Completed));
    assert!(s.handle(&line(ANNOUNCE)).is_empty());
    assert!(s.handle(&Event::OutputClosed).is_empty());
    assert!(s.handle(&Event::StartFailed).is_empty());
    assert!(s.handle(&Event::Started).is_empty());
    assert_eq!(s.phase(), Phase::Terminating(Outcome::Completed));
    s.handle(&Event::Restored);
    assert_eq!(s.phase(), Phase::Stopped(Outcome::Completed));
    for e in [Event::Started, Event::StartFailed, line(ANNOUNCE), Event::OutputClosed, Event::Restored] {
        assert!(s.handle(&e).is_empty());
        assert_eq!(s.phase(), Phase::Stopped(Outcome::Completed));
    }
}

#[test]
fn unexpected_events_are_ignored() {
    let mut s = supervisor();
    assert!(s.handle(&line(ANNOUNCE)).is_empty());
    assert!(s.handle(&Event::OutputClosed).is_empty());
    assert!(s.handle(&Event::Restored).is_empty());
    assert_eq!(s.phase(), Phase::Starting);
    s.handle(&Event::Started);
    assert!(s.handle(&Event::Started).is_empty());
    assert!(s.handle(&Event::StartFailed).is_empty());
    assert!(s.handle(&Event::Restored).is_empty());
    assert_eq!(s.phase(), Phase::Running);
}

#[test]
fn interrupt_kills_only_a_running_engine() {
    assert_eq!(on_interrupt(ChildStatus::Exited), InterruptAction::ReportExited);
    assert_eq!(on_interrupt(ChildStatus::Running), InterruptAction::Kill);
    assert_eq!(on_interrupt(ChildStatus::Unknown), InterruptAction::ReportFailure);
}
