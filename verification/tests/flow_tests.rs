use dev_purge::domain::traits::ScanTier;
use dev_purge::flow::{Action, Event, Phase, RunOptions, RunState, Stop};

fn opts(tier: ScanTier, yes: bool, check: bool) -> RunOptions {
    RunOptions { tier, yes, check, permanent: false }
}

fn drive(o: RunOptions, events: Vec<Event>) -> Vec<Action> {
    let mut s = RunState::new(o);
    let mut out = Vec::new();
    for e in events.iter() {
        let (n, a) = s.step(e);
        s = n;
        out.push(a);
    }
    out
}

#[test]
fn default_run_asks_before_cleaning() {
    let acts = drive(
        opts(ScanTier::Project, false, false),
        vec![
            Event::Begin,
            Event::SafetyChecked(true),
            Event::Scanned(3),
            Event::PreviewShown,
            Event::ConfirmationLine("y\n".to_string()),
            Event::Cleaned,
            Event::SummaryShown,
        ],
    );
    assert_eq!(
        acts,
        vec![
            Action::CheckSafety,
            Action::Scan { docker: false },
            Action::ShowPreview,
            Action::AskConfirmation,
            Action::Clean { permanent: false },
            Action::ShowSummary,
            Action::Halt(Stop::Done),
        ]
    );
}

#[test]
fn check_mode_never_cleans() {
    let acts = drive(
        opts(ScanTier::Cache, true, true),
        vec![Event::Begin, Event::SafetyChecked(true), Event::Scanned(3), Event::PreviewShown, Event::Cleaned],
    );
    assert_eq!(acts[3], Action::Halt(Stop::Done));
    assert_eq!(acts[4], Action::Ignore);
}

#[test]
fn aggressive_mode_needs_consent() {
    let acts = drive(
        opts(ScanTier::Aggressive, false, false),
        vec![Event::Begin, Event::ConsentLine("no".to_string())],
    );
    assert_eq!(acts, vec![Action::AskConsent, Action::Halt(Stop::Cancelled)]);

    let acts = drive(
        opts(ScanTier::Aggressive, false, false),
        vec![
            Event::Begin,
            Event::ConsentLine("yes i understand".to_string()),
            Event::SafetyChecked(true),
        ],
    );
    assert_eq!(acts, vec![Action::AskConsent, Action::CheckSafety, Action::Scan { docker: true }]);
}

#[test]
fn refused_root_and_empty_scan_stop_the_run() {
    let acts = drive(opts(ScanTier::Project, true, false), vec![Event::Begin, Event::SafetyChecked(false)]);
    assert_eq!(acts, vec![Action::CheckSafety, Action::Halt(Stop::Refused)]);

    let acts = drive(
        opts(ScanTier::Project, true, false),
        vec![Event::Begin, Event::SafetyChecked(true), Event::Scanned(0), Event::PreviewShown],
    );
    assert_eq!(acts[3], Action::Halt(Stop::Done));
}

#[test]
fn yes_skips_the_prompt_and_declining_stops() {
    let acts = drive(
        RunOptions { tier: ScanTier::Project, yes: true, check: false, permanent: true },
        vec![Event::Begin, Event::SafetyChecked(true), Event::Scanned(1), Event::PreviewShown],
    );
    assert_eq!(acts[3], Action::Clean { permanent: true });

    let mut s = RunState::new(opts(ScanTier::Project, false, false));
    for e in [Event::Begin, Event::SafetyChecked(true), Event::Scanned(1), Event::PreviewShown] {
        s = s.step(&e).0;
    }
    assert_eq!(s.phase, Phase::AwaitingConfirmation);
    let (s2, a) = s.step(&Event::ConfirmationLine("n".to_string()));
    assert_eq!(a, Action::Halt(Stop::Done));
    assert_eq!(s2.phase, Phase::Finished);
    assert!(!s2.confirmed);
}

#[test]
fn events_out_of_order_change_nothing() {
    let s = RunState::new(opts(ScanTier::Project, false, false));
    let (s2, a) = s.step(&Event::Cleaned);
    assert_eq!(a, Action::Ignore);
    assert_eq!(s2, s);
}
