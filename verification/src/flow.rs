//! The decisions of a cleanup run, as a state machine: the caller performs
//! each action (prompting, checking, scanning, deleting, printing) and
//! reports what came of it; [`RunState::step`] decides what comes next.
use vstd::prelude::*;
use crate::domain::traits::ScanTier;
use crate::ui::confirm::{accepts_aggressive, confirms, is_aggressive_consent, is_confirmation};

verus! {

/// The options of a run that the decisions depend on.
#[derive(Clone, Copy, Debug, PartialEq, Eq, Structural)]
pub struct RunOptions {
    pub tier: ScanTier,
    /// Skip the prompts.
    pub yes: bool,
    /// Only scan and preview.
    pub check: bool,
    /// Delete permanently rather than to the trash bin.
    pub permanent: bool,
}

/// Where a run stands.
#[derive(Clone, Copy, Debug, PartialEq, Eq, Structural)]
pub enum Phase {
    Start,
    AwaitingConsent,
    CheckingSafety,
    Scanning,
    Previewing,
    AwaitingConfirmation,
    Cleaning,
    Summarizing,
    Finished,
}

/// What the caller reports back.
#[derive(Clone, Debug)]
pub enum Event {
    /// The run begins.
    Begin,
    /// The line typed at the aggressive-mode warning.
    ConsentLine(String),
    /// The safety check of the scan root passed (`true`) or refused.
    SafetyChecked(bool),
    /// The scan ended with this many safe findings.
    Scanned(usize),
    /// The preview was shown.
    PreviewShown,
    /// The line typed at the `[y/N]` prompt.
    ConfirmationLine(String),
    /// The findings were cleaned.
    Cleaned,
    /// The summary was shown.
    SummaryShown,
}

/// Why a run stopped.
#[derive(Clone, Copy, Debug, PartialEq, Eq, Structural)]
pub enum Stop {
    /// Everything asked for was done (or there was nothing to do).
    Done,
    /// The aggressive-mode warning was not accepted.
    Cancelled,
    /// The safety check refused the scan root.
    Refused,
}

/// What the caller does next.
#[derive(Clone, Copy, Debug, PartialEq, Eq, Structural)]
pub enum Action {
    /// Show the aggressive-mode warning and read a line.
    AskConsent,
    /// Check that the scan root may be scanned.
    CheckSafety,
    /// Scan the root (and Docker when `docker`), keep the safe results.
    Scan { docker: bool },
    /// Show the preview of the findings.
    ShowPreview,
    /// Ask `[y/N]` and read a line.
    AskConfirmation,
    /// Clean the findings.
    Clean { permanent: bool },
    /// Show what was recovered.
    ShowSummary,
    /// End the run.
    Halt(Stop),
    /// The event does not fit the phase: nothing to do.
    Ignore,
}

/// The state of a run: its options, its phase, and what has been
/// established so far.
#[derive(Clone, Copy, Debug, PartialEq, Eq, Structural)]
pub struct RunState {
    pub options: RunOptions,
    pub phase: Phase,
    /// The aggressive-mode warning was accepted.
    pub consented: bool,
    /// The safety check passed.
    pub safe: bool,
    /// The scan found something.
    pub found: bool,
    /// The deletion was confirmed at the prompt.
    pub confirmed: bool,
}

/// The run starts from here.
pub open spec fn initial(options: RunOptions) -> RunState {
    RunState { options, phase: Phase::Start, consented: false, safe: false, found: false, confirmed: false }
}

/// `s` moved to phase `p`.
pub open spec fn at(s: RunState, p: Phase) -> RunState {
    RunState { phase: p, ..s }
}

/// The next state and action when `e` happens in state `s`.  An event
/// that does not fit the phase changes nothing.
pub open spec fn next(s: RunState, e: Event) -> (RunState, Action) {
    let o = s.options;
    match (s.phase, e) {
        (Phase::Start, Event::Begin) => if o.tier == ScanTier::Aggressive && !o.yes {
            (at(s, Phase::AwaitingConsent), Action::AskConsent)
        } else {
            (at(s, Phase::CheckingSafety), Action::CheckSafety)
        },
        (Phase::AwaitingConsent, Event::ConsentLine(l)) => if accepts_aggressive(l@) {
            (RunState { phase: Phase::CheckingSafety, consented: true, ..s }, Action::CheckSafety)
        } else {
            (at(s, Phase::Finished), Action::Halt(Stop::Cancelled))
        },
        (Phase::CheckingSafety, Event::SafetyChecked(ok)) => if ok {
            (
                RunState { phase: Phase::Scanning, safe: true, ..s },
                Action::Scan { docker: o.tier == ScanTier::Aggressive },
            )
        } else {
            (at(s, Phase::Finished), Action::Halt(Stop::Refused))
        },
        (Phase::Scanning, Event::Scanned(n)) => (
            RunState { phase: Phase::Previewing, found: n > 0, ..s },
            Action::ShowPreview,
        ),
        (Phase::Previewing, Event::PreviewShown) => if o.check || !s.found {
            (at(s, Phase::Finished), Action::Halt(Stop::Done))
        } else if o.yes {
            (at(s, Phase::Cleaning), Action::Clean { permanent: o.permanent })
        } else {
            (at(s, Phase::AwaitingConfirmation), Action::AskConfirmation)
        },
        (Phase::AwaitingConfirmation, Event::ConfirmationLine(l)) => if confirms(l@) {
            (
                RunState { phase: Phase::Cleaning, confirmed: true, ..s },
                Action::Clean { permanent: o.permanent },
            )
        } else {
            (at(s, Phase::Finished), Action::Halt(Stop::Done))
        },
        (Phase::Cleaning, Event::Cleaned) => (at(s, Phase::Summarizing), Action::ShowSummary),
        (Phase::Summarizing, Event::SummaryShown) => (at(s, Phase::Finished), Action::Halt(Stop::Done)),
        _ => (s, Action::Ignore),
    }
}

impl RunState {
    /// The state a run with `options` starts in.
    pub fn new(options: RunOptions) -> (r: Self)
        ensures
            r == initial(options),
    {
        RunState { options, phase: Phase::Start, consented: false, safe: false, found: false, confirmed: false }
    }

    /// What happens when `e` is reported: the next state and the action for
    /// the caller.
    pub fn step(self, e: &Event) -> (r: (RunState, Action))
        ensures
            r == next(self, *e),
    {
        let o = self.options;
        match (self.phase, e) {
            (Phase::Start, Event::Begin) => if o.tier == ScanTier::Aggressive && !o.yes {
                (RunState { phase: Phase::AwaitingConsent, ..self }, Action::AskConsent)
            } else {
                (RunState { phase: Phase::CheckingSafety, ..self }, Action::CheckSafety)
            },
            (Phase::AwaitingConsent, Event::ConsentLine(l)) => if is_aggressive_consent(l.as_str()) {
                (RunState { phase: Phase::CheckingSafety, consented: true, ..self }, Action::CheckSafety)
            } else {
                (RunState { phase: Phase::Finished, ..self }, Action::Halt(Stop::Cancelled))
            },
            (Phase::CheckingSafety, Event::SafetyChecked(ok)) => if *ok {
                (
                    RunState { phase: Phase::Scanning, safe: true, ..self },
                    Action::Scan { docker: o.tier == ScanTier::Aggressive },
                )
            } else {
                (RunState { phase: Phase::Finished, ..self }, Action::Halt(Stop::Refused))
            },
            (Phase::Scanning, Event::Scanned(n)) => (
                RunState { phase: Phase::Previewing, found: *n > 0, ..self },
                Action::ShowPreview,
            ),
            (Phase::Previewing, Event::PreviewShown) => if o.check || !self.found {
                (RunState { phase: Phase::Finished, ..self }, Action::Halt(Stop::Done))
            } else if o.yes {
                (RunState { phase: Phase::Cleaning, ..self }, Action::Clean { permanent: o.permanent })
            } else {
                (RunState { phase: Phase::AwaitingConfirmation, ..self }, Action::AskConfirmation)
            },
            (Phase::AwaitingConfirmation, Event::ConfirmationLine(l)) => if is_confirmation(l.as_str()) {
                (
                    RunState { phase: Phase::Cleaning, confirmed: true, ..self },
                    Action::Clean { permanent: o.permanent },
                )
            } else {
                (RunState { phase: Phase::Finished, ..self }, Action::Halt(Stop::Done))
            },
            (Phase::Cleaning, Event::Cleaned) => (
                RunState { phase: Phase::Summarizing, ..self },
                Action::ShowSummary,
            ),
            (Phase::Summarizing, Event::SummaryShown) => (
                RunState { phase: Phase::Finished, ..self },
                Action::Halt(Stop::Done),
            ),
            _ => (self, Action::Ignore),
        }
    }
}


/// Aggressive mode is either not asked for, or allowed by `--yes` or by
/// the accepted warning.
pub open spec fn aggressive_allowed(s: RunState) -> bool {
    s.options.tier != ScanTier::Aggressive || s.options.yes || s.consented
}

/// Everything that must hold before anything is deleted: aggressive mode
/// allowed, the safety check passed, something found, not in check mode,
/// and the deletion confirmed or the prompt skipped with `--yes`.
pub open spec fn authorized(s: RunState) -> bool {
    &&& aggressive_allowed(s)
    &&& s.safe
    &&& s.found
    &&& !s.options.check
    &&& (s.options.yes || s.confirmed)
}

/// What every state a run reaches satisfies, phase by phase.
pub open spec fn run_inv(s: RunState) -> bool {
    match s.phase {
        Phase::Start => !s.consented && !s.safe && !s.found && !s.confirmed,
        Phase::AwaitingConsent => s.options.tier == ScanTier::Aggressive && !s.options.yes && !s.consented
            && !s.safe && !s.found && !s.confirmed,
        Phase::CheckingSafety => aggressive_allowed(s) && !s.safe && !s.found && !s.confirmed,
        Phase::Scanning => aggressive_allowed(s) && s.safe && !s.found && !s.confirmed,
        Phase::Previewing => aggressive_allowed(s) && s.safe && !s.confirmed,
        Phase::AwaitingConfirmation => aggressive_allowed(s) && s.safe && s.found && !s.options.check
            && !s.options.yes && !s.confirmed,
        Phase::Cleaning => authorized(s),
        Phase::Summarizing => authorized(s),
        Phase::Finished => true,
    }
}

/// The state after the first `n` of `events`, starting from `initial(o)`.
pub open spec fn state_after(o: RunOptions, events: Seq<Event>, n: int) -> RunState
    decreases n,
{
    if n <= 0 {
        initial(o)
    } else {
        next(state_after(o, events, n - 1), events[n - 1]).0
    }
}

/// The action decided on the `n`-th of `events` (counting from 0).
pub open spec fn action_at(o: RunOptions, events: Seq<Event>, n: int) -> Action {
    next(state_after(o, events, n), events[n]).1
}

/// Every step keeps [`run_inv`], and a step that asks for cleaning ends in
/// an authorized state.
pub proof fn lemma_step_keeps_invariant(s: RunState, e: Event)
    requires
        run_inv(s),
    ensures
        run_inv(next(s, e).0),
        next(s, e).1 is Clean ==> authorized(next(s, e).0),
{
}

/// Whatever is reported, in whatever order, a run asks for cleaning only
/// once aggressive mode is allowed, the safety check has passed, the scan
/// has found something, check mode is off, and the deletion was confirmed
/// at the prompt or the prompt was skipped with `--yes`.
pub proof fn lemma_clean_only_when_authorized(o: RunOptions, events: Seq<Event>, n: int)
    requires
        0 <= n < events.len(),
        action_at(o, events, n) is Clean,
    ensures
        authorized(state_after(o, events, n + 1)),
{
    lemma_reachable_inv(o, events, n);
    lemma_step_keeps_invariant(state_after(o, events, n), events[n]);
}

/// Every state a run reaches satisfies [`run_inv`].
pub proof fn lemma_reachable_inv(o: RunOptions, events: Seq<Event>, n: int)
    requires
        0 <= n <= events.len(),
    ensures
        run_inv(state_after(o, events, n)),
    decreases n,
{
    if n > 0 {
        lemma_reachable_inv(o, events, n - 1);
        lemma_step_keeps_invariant(state_after(o, events, n - 1), events[n - 1]);
    }
}

/// Docker is scanned only in aggressive mode.
pub proof fn lemma_docker_only_when_aggressive(s: RunState, e: Event)
    ensures
        next(s, e).1 matches Action::Scan { docker } && docker ==> s.options.tier == ScanTier::Aggressive,
{
}


/// A step never changes the options of the run, and every cleaning it asks
/// for carries the run's `permanent` option, whether the deletion follows
/// `--yes` or a confirmed prompt.
pub proof fn lemma_step_keeps_options(s: RunState, e: Event)
    ensures
        next(s, e).0.options == s.options,
        next(s, e).1 matches Action::Clean { permanent } ==> permanent == s.options.permanent,
        next(s, e).1 matches Action::Scan { docker } ==> docker == (s.options.tier == ScanTier::Aggressive),
{
}

/// Throughout a run the options stay as they were given.
pub proof fn lemma_options_fixed(o: RunOptions, events: Seq<Event>, n: int)
    requires
        0 <= n <= events.len(),
    ensures
        state_after(o, events, n).options == o,
    decreases n,
{
    if n > 0 {
        lemma_options_fixed(o, events, n - 1);
        lemma_step_keeps_options(state_after(o, events, n - 1), events[n - 1]);
    }
}

/// Whatever is reported, every cleaning a run asks for deletes
/// permanently exactly when the run was started with `--permanent`.
pub proof fn lemma_clean_uses_permanent_option(o: RunOptions, events: Seq<Event>, n: int)
    requires
        0 <= n < events.len(),
    ensures
        action_at(o, events, n) matches Action::Clean { permanent } ==> permanent == o.permanent,
{
    lemma_options_fixed(o, events, n);
    lemma_step_keeps_options(state_after(o, events, n), events[n]);
}

} // verus!
