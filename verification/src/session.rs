//! One whole run of the tool, as a state machine.
//!
//! The session fixes the order that the specification prescribes:
//! resolve the output channel first (no message can be reported before
//! that), then read and parse the command line, then wait exactly the
//! configured delay, then drive the monitor power controller, and
//! finally report the outcome through the channel resolved at the
//! start and exit.  The host performs each requested action (the
//! probe, the sleep, the OS calls, the actual writing or dialog) and
//! feeds its completion back in; every decision in between is made
//! here and verified.

use vstd::prelude::*;
use vstd::pervasive::unreached;
use vstd::string::StringExecFns;
use crate::channel::{OutputChannel, Severity, Sink, spec_resolve, spec_route, resolve, route,
    sink_is_textual};
use crate::cli::{ParseOutcome, OutcomeModel, spec_parse, parse_arguments};
use crate::power::{PowerOutcome, PowerOutcomeModel};

verus! {

/// Prefix of the message shown when the power-off request fails.
pub open spec fn power_failure_prefix() -> Seq<char> {
    "Error turning off monitors: "@
}

/// A message together with the sink it must go to.
#[derive(Debug)]
pub struct Directive {
    pub sink: Sink,
    pub text: String,
}

/// [`Directive`], as a mathematical value.
pub struct DirectiveModel {
    pub sink: Sink,
    pub text: Seq<char>,
}

impl View for Directive {
    type V = DirectiveModel;

    open spec fn view(&self) -> DirectiveModel {
        DirectiveModel { sink: self.sink, text: self.text@ }
    }
}

/// Where a run stands.
#[derive(Debug)]
pub enum SessionPhase {
    /// Nothing happened yet: the console-attach probe comes first.
    AwaitProbe,
    /// The channel is resolved: the command line must be read.
    AwaitArguments,
    /// The arguments were accepted: wait this many milliseconds.
    AwaitWait { millis: u16 },
    /// The wait has elapsed: the power controller must run.
    AwaitPower,
    /// A message is being shown; exit with this code once dismissed.
    AwaitShow { exit_code: u8 },
    /// The run is over with this exit code.
    Finished { exit_code: u8 },
}

/// [`SessionPhase`], as a mathematical value.
pub enum SessionPhaseModel {
    AwaitProbe,
    AwaitArguments,
    AwaitWait { millis: int },
    AwaitPower,
    AwaitShow { exit_code: int },
    Finished { exit_code: int },
}

impl View for SessionPhase {
    type V = SessionPhaseModel;

    open spec fn view(&self) -> SessionPhaseModel {
        match self {
            SessionPhase::AwaitProbe => SessionPhaseModel::AwaitProbe,
            SessionPhase::AwaitArguments => SessionPhaseModel::AwaitArguments,
            SessionPhase::AwaitWait { millis } => (SessionPhaseModel::AwaitWait {
                millis: *millis as int,
            }),
            SessionPhase::AwaitPower => SessionPhaseModel::AwaitPower,
            SessionPhase::AwaitShow { exit_code } => (SessionPhaseModel::AwaitShow {
                exit_code: *exit_code as int,
            }),
            SessionPhase::Finished { exit_code } => (SessionPhaseModel::Finished {
                exit_code: *exit_code as int,
            }),
        }
    }
}

/// Completion of one host action, reported back to the session.
#[derive(Debug)]
pub enum SessionEvent {
    /// The console-attach probe finished; true means a parent console
    /// was attached and the standard streams now reach it.
    ProbeFinished(bool),
    /// The command-line arguments after the program name.
    ArgumentsRead(Vec<String>),
    /// The requested wait has elapsed.
    WaitFinished,
    /// The power controller run concluded with this outcome.
    PowerFinished(PowerOutcome),
    /// The directed message was shown (or writing it was attempted;
    /// showing is best-effort and must not fail the run).
    MessageShown,
}

/// [`SessionEvent`], as a mathematical value.
pub enum SessionEventModel {
    ProbeFinished(bool),
    ArgumentsRead(Seq<Seq<char>>),
    WaitFinished,
    PowerFinished(PowerOutcomeModel),
    MessageShown,
}

impl View for SessionEvent {
    type V = SessionEventModel;

    open spec fn view(&self) -> SessionEventModel {
        match self {
            SessionEvent::ProbeFinished(ok) => SessionEventModel::ProbeFinished(*ok),
            SessionEvent::ArgumentsRead(args) => SessionEventModel::ArgumentsRead(args.deep_view()),
            SessionEvent::WaitFinished => SessionEventModel::WaitFinished,
            SessionEvent::PowerFinished(o) => SessionEventModel::PowerFinished(o@),
            SessionEvent::MessageShown => SessionEventModel::MessageShown,
        }
    }
}

/// What the session asks the host to do next.
#[derive(Debug)]
pub enum SessionAction {
    /// Probe for a parent console and try to attach to it.
    Probe,
    /// Collect the command-line arguments after the program name.
    ReadArguments,
    /// Block the sole thread for this many milliseconds.
    Wait { millis: u16 },
    /// Drive one [`crate::power::PowerController`] run.
    RequestPowerOff,
    /// Deliver this message through its sink, best-effort.
    Show(Directive),
    /// Terminate the process with this code.
    Exit { code: u8 },
}

/// [`SessionAction`], as a mathematical value.
pub enum SessionActionModel {
    Probe,
    ReadArguments,
    Wait { millis: int },
    RequestPowerOff,
    Show(DirectiveModel),
    Exit { code: int },
}

impl View for SessionAction {
    type V = SessionActionModel;

    open spec fn view(&self) -> SessionActionModel {
        match self {
            SessionAction::Probe => SessionActionModel::Probe,
            SessionAction::ReadArguments => SessionActionModel::ReadArguments,
            SessionAction::Wait { millis } => (SessionActionModel::Wait {
                millis: *millis as int,
            }),
            SessionAction::RequestPowerOff => SessionActionModel::RequestPowerOff,
            SessionAction::Show(d) => SessionActionModel::Show(d@),
            SessionAction::Exit { code } => (SessionActionModel::Exit { code: *code as int }),
        }
    }
}

/// One run of the tool.
#[derive(Debug)]
pub struct Session {
    /// The channel resolved at startup; `None` only before the probe.
    pub channel: Option<OutputChannel>,
    pub phase: SessionPhase,
}

/// [`Session`], as a mathematical value.
pub struct SessionModel {
    pub channel: Option<OutputChannel>,
    pub phase: SessionPhaseModel,
}

impl View for Session {
    type V = SessionModel;

    open spec fn view(&self) -> SessionModel {
        SessionModel { channel: self.channel, phase: self.phase@ }
    }
}

/// The channel exists from the moment the probe finished, and only
/// from then.
pub open spec fn spec_wf(s: SessionModel) -> bool {
    (s.channel is Some) <==> !(s.phase matches SessionPhaseModel::AwaitProbe)
}

/// The events a phase is prepared to take: exactly the completion of
/// the action that the phase is waiting for.  A finished session takes
/// no event at all.
pub open spec fn session_accepts(s: SessionModel, e: SessionEventModel) -> bool {
    match (s.phase, e) {
        (SessionPhaseModel::AwaitProbe, SessionEventModel::ProbeFinished(_)) => true,
        (SessionPhaseModel::AwaitArguments, SessionEventModel::ArgumentsRead(_)) => true,
        (SessionPhaseModel::AwaitWait { .. }, SessionEventModel::WaitFinished) => true,
        (SessionPhaseModel::AwaitPower, SessionEventModel::PowerFinished(_)) => true,
        (SessionPhaseModel::AwaitShow { .. }, SessionEventModel::MessageShown) => true,
        _ => false,
    }
}

/// The whole orchestration: the next state and the next request, for
/// every state and accepted event.  (The final arm is never reached
/// under [`session_accepts`]; it leaves the state alone.)
pub open spec fn spec_session_step(s: SessionModel, e: SessionEventModel) -> (
    SessionModel,
    SessionActionModel,
) {
    match (s.phase, e) {
        (SessionPhaseModel::AwaitProbe, SessionEventModel::ProbeFinished(ok)) => (
            SessionModel {
                channel: Some(spec_resolve(ok)),
                phase: SessionPhaseModel::AwaitArguments,
            },
            SessionActionModel::ReadArguments,
        ),
        (SessionPhaseModel::AwaitArguments, SessionEventModel::ArgumentsRead(a)) => match
            spec_parse(a) {
            OutcomeModel::Run(ms) => (
                SessionModel { channel: s.channel, phase: SessionPhaseModel::AwaitWait { millis: ms } },
                SessionActionModel::Wait { millis: ms },
            ),
            OutcomeModel::Inform(t) => (
                SessionModel {
                    channel: s.channel,
                    phase: SessionPhaseModel::AwaitShow { exit_code: 0 },
                },
                SessionActionModel::Show(
                    DirectiveModel { sink: spec_route(s.channel->0, Severity::Info), text: t },
                ),
            ),
            OutcomeModel::Reject(t) => (
                SessionModel {
                    channel: s.channel,
                    phase: SessionPhaseModel::AwaitShow { exit_code: 1 },
                },
                SessionActionModel::Show(
                    DirectiveModel { sink: spec_route(s.channel->0, Severity::Error), text: t },
                ),
            ),
        },
        (SessionPhaseModel::AwaitWait { .. }, SessionEventModel::WaitFinished) => (
            SessionModel { channel: s.channel, phase: SessionPhaseModel::AwaitPower },
            SessionActionModel::RequestPowerOff,
        ),
        (SessionPhaseModel::AwaitPower, SessionEventModel::PowerFinished(out)) => match out {
            PowerOutcomeModel::Success => (
                SessionModel {
                    channel: s.channel,
                    phase: SessionPhaseModel::Finished { exit_code: 0 },
                },
                SessionActionModel::Exit { code: 0 },
            ),
            PowerOutcomeModel::Failure(d) => (
                SessionModel {
                    channel: s.channel,
                    phase: SessionPhaseModel::AwaitShow { exit_code: 1 },
                },
                SessionActionModel::Show(
                    DirectiveModel {
                        sink: spec_route(s.channel->0, Severity::Error),
                        text: power_failure_prefix() + d,
                    },
                ),
            ),
        },
        (SessionPhaseModel::AwaitShow { exit_code }, SessionEventModel::MessageShown) => (
            SessionModel {
                channel: s.channel,
                phase: SessionPhaseModel::Finished { exit_code },
            },
            SessionActionModel::Exit { code: exit_code },
        ),
        _ => (s, SessionActionModel::Probe),
    }
}

impl Session {
    /// Begin a run: the first thing the host must do is probe for a
    /// parent console.
    pub fn begin() -> (r: (Session, SessionAction))
        ensures
            r.0@ == (SessionModel { channel: None, phase: SessionPhaseModel::AwaitProbe }),
            r.1@ == SessionActionModel::Probe,
            spec_wf(r.0@),
    {
        (Session { channel: None, phase: SessionPhase::AwaitProbe }, SessionAction::Probe)
    }

    /// Take the completion of the pending action and say what to do
    /// next — exactly as [`spec_session_step`] prescribes.
    pub fn step(&mut self, e: SessionEvent) -> (a: SessionAction)
        requires
            spec_wf(old(self)@),
            session_accepts(old(self)@, e@),
        ensures
            (final(self)@, a@) == spec_session_step(old(self)@, e@),
            spec_wf(final(self)@),
    {
        match e {
            SessionEvent::ProbeFinished(ok) => {
                let c = resolve(ok);
                self.channel = Some(c);
                self.phase = SessionPhase::AwaitArguments;
                SessionAction::ReadArguments
            },
            SessionEvent::ArgumentsRead(args) => {
                let c: OutputChannel = match self.channel {
                    Some(c) => c,
                    None => unreached(),
                };
                match parse_arguments(&args) {
                    ParseOutcome::Parsed(cfg) => {
                        self.phase = SessionPhase::AwaitWait { millis: cfg.millis };
                        SessionAction::Wait { millis: cfg.millis }
                    },
                    ParseOutcome::Informational(t) => {
                        self.phase = SessionPhase::AwaitShow { exit_code: 0 };
                        SessionAction::Show(
                            Directive { sink: route(c, Severity::Info), text: t },
                        )
                    },
                    ParseOutcome::ArgumentError(t) => {
                        self.phase = SessionPhase::AwaitShow { exit_code: 1 };
                        SessionAction::Show(
                            Directive { sink: route(c, Severity::Error), text: t },
                        )
                    },
                }
            },
            SessionEvent::WaitFinished => {
                self.phase = SessionPhase::AwaitPower;
                SessionAction::RequestPowerOff
            },
            SessionEvent::PowerFinished(out) => match out {
                PowerOutcome::Success => {
                    self.phase = SessionPhase::Finished { exit_code: 0 };
                    SessionAction::Exit { code: 0 }
                },
                PowerOutcome::Failure(err) => {
                    let c: OutputChannel = match self.channel {
                        Some(c) => c,
                        None => unreached(),
                    };
                    let mut text: String = "Error turning off monitors: ".to_owned();
                    text.append(err.description.as_str());
                    self.phase = SessionPhase::AwaitShow { exit_code: 1 };
                    SessionAction::Show(
                        Directive { sink: route(c, Severity::Error), text },
                    )
                },
            },
            SessionEvent::MessageShown => {
                let code: u8 = match &self.phase {
                    SessionPhase::AwaitShow { exit_code } => *exit_code,
                    _ => unreached(),
                };
                self.phase = SessionPhase::Finished { exit_code: code };
                SessionAction::Exit { code }
            },
        }
    }
}

/// How far along a run a phase is.
pub open spec fn session_rank(p: SessionPhaseModel) -> int {
    match p {
        SessionPhaseModel::AwaitProbe => 0,
        SessionPhaseModel::AwaitArguments => 1,
        SessionPhaseModel::AwaitWait { .. } => 2,
        SessionPhaseModel::AwaitPower => 3,
        SessionPhaseModel::AwaitShow { .. } => 4,
        SessionPhaseModel::Finished { .. } => 5,
    }
}

/// Every accepted event moves the session strictly forward: no phase
/// ever recurs within a run.  In particular nothing is retried, and a
/// session that has reported an argument error (or any other message)
/// can never come back to the waiting or power-off phases.
pub proof fn lemma_session_moves_forward(s: SessionModel, e: SessionEventModel)
    requires
        session_accepts(s, e),
    ensures
        session_rank(spec_session_step(s, e).0.phase) > session_rank(s.phase),
{
}

/// Once resolved, the channel never changes: every later step carries
/// it over unchanged, so all messages of one run go through the same
/// channel variant.
pub proof fn lemma_channel_constant(s: SessionModel, e: SessionEventModel)
    requires
        spec_wf(s),
        session_accepts(s, e),
        s.channel is Some,
    ensures
        spec_session_step(s, e).0.channel == s.channel,
{
}

/// Every shown message goes through the channel resolved at startup: it
/// lands on a standard stream exactly when that channel is textual, and
/// in a dialog exactly when it is graphical.
pub proof fn lemma_show_uses_resolved_channel(s: SessionModel, e: SessionEventModel)
    requires
        spec_wf(s),
        session_accepts(s, e),
    ensures
        spec_session_step(s, e).1 matches SessionActionModel::Show(d) ==> (sink_is_textual(d.sink)
            <==> s.channel == Some(OutputChannel::Textual)),
{
}

/// The power controller is invoked only as the response to a finished
/// wait: no other state and no other event can request it.
pub proof fn lemma_power_only_after_wait(s: SessionModel, e: SessionEventModel)
    requires
        session_accepts(s, e),
    ensures
        spec_session_step(s, e).1 == SessionActionModel::RequestPowerOff ==> (s.phase matches
            SessionPhaseModel::AwaitWait { .. } && e == SessionEventModel::WaitFinished),
{
}

/// The only wait ever requested is exactly the delay that parsing the
/// arguments configured — no more and no less, so a delay of zero adds
/// no wait at all; and the waiting phase is entered in no other way.
pub proof fn lemma_wait_is_configured_delay(s: SessionModel, e: SessionEventModel)
    requires
        session_accepts(s, e),
    ensures
        spec_session_step(s, e).1 matches SessionActionModel::Wait { millis } ==> (e matches
            SessionEventModel::ArgumentsRead(a) && spec_parse(a) == OutcomeModel::Run(millis)),
        spec_session_step(s, e).0.phase matches SessionPhaseModel::AwaitWait { millis } ==> (e
            matches SessionEventModel::ArgumentsRead(a) && spec_parse(a) == OutcomeModel::Run(
            millis,
        )),
{
}

/// A rejected command line is reported as an error through the resolved
/// channel, and the run then exits with a failing code, never having
/// waited nor invoked the power controller.
pub proof fn lemma_reject_reports_and_fails(s: SessionModel, e: SessionEventModel, a: Seq<Seq<char>>)
    requires
        spec_wf(s),
        session_accepts(s, e),
        e == SessionEventModel::ArgumentsRead(a),
        spec_parse(a) matches OutcomeModel::Reject(_),
    ensures
        spec_session_step(s, e).1 matches SessionActionModel::Show(d) ==> d.sink == spec_route(
            s.channel->0,
            Severity::Error,
        ),
        spec_session_step(s, e).1 is Show,
        spec_session_step(s, e).0.phase == (SessionPhaseModel::AwaitShow { exit_code: 1 }),
        spec_session_step(
            spec_session_step(s, e).0,
            SessionEventModel::MessageShown,
        ).1 == (SessionActionModel::Exit { code: 1 }),
{
}

/// A help or version request is reported at informational severity
/// through the resolved channel, and the run then exits successfully,
/// never having waited nor invoked the power controller.
pub proof fn lemma_inform_reports_and_succeeds(
    s: SessionModel,
    e: SessionEventModel,
    a: Seq<Seq<char>>,
)
    requires
        spec_wf(s),
        session_accepts(s, e),
        e == SessionEventModel::ArgumentsRead(a),
        spec_parse(a) matches OutcomeModel::Inform(_),
    ensures
        spec_session_step(s, e).1 matches SessionActionModel::Show(d) ==> d.sink == spec_route(
            s.channel->0,
            Severity::Info,
        ),
        spec_session_step(s, e).1 is Show,
        spec_session_step(s, e).0.phase == (SessionPhaseModel::AwaitShow { exit_code: 0 }),
        spec_session_step(
            spec_session_step(s, e).0,
            SessionEventModel::MessageShown,
        ).1 == (SessionActionModel::Exit { code: 0 }),
{
}

/// A failed power-off request is reported once, as an error through the
/// resolved channel with the failure description appended, and the run
/// then exits with a failing code; the forward-motion law rules out any
/// retry.
pub proof fn lemma_power_failure_reports_and_fails(
    s: SessionModel,
    e: SessionEventModel,
    d: Seq<char>,
)
    requires
        spec_wf(s),
        session_accepts(s, e),
        e == SessionEventModel::PowerFinished(PowerOutcomeModel::Failure(d)),
    ensures
        spec_session_step(s, e).1 == SessionActionModel::Show(
            DirectiveModel {
                sink: spec_route(s.channel->0, Severity::Error),
                text: power_failure_prefix() + d,
            },
        ),
        spec_session_step(s, e).0.phase == (SessionPhaseModel::AwaitShow { exit_code: 1 }),
        spec_session_step(
            spec_session_step(s, e).0,
            SessionEventModel::MessageShown,
        ).1 == (SessionActionModel::Exit { code: 1 }),
{
}

} // verus!
