//! The monitor power controller.
//!
//! Turning the monitors off works by creating an invisible window whose
//! only purpose is to be an addressable message endpoint, and then
//! posting a system-command notification carrying the "monitor power"
//! code with the "off" parameter to it.  The posting is fire-and-forget:
//! the host delivers the message on its own and nothing waits for the
//! monitors to react.
//!
//! The controller here is the decision half of that sequence: a small
//! state machine that says, after each host call completes, what to do
//! next.  The thin binary around the library performs each requested
//! call and feeds its outcome back in as a plain value, so every
//! decision — the order of the steps, the exact request that is posted,
//! and how each failure is wrapped — is verified.

use vstd::prelude::*;

verus! {

/// Message code of a system-command notification.
pub const WM_SYSCOMMAND: u32 = 0x0112;

/// System-command parameter selecting a monitor power change.
pub const SC_MONITORPOWER: usize = 0xF170;

/// Power parameter meaning "off" (other values mean "low power" or
/// "on"; the controller only ever turns monitors off).
pub const MONITOR_POWER_OFF: isize = 2;

/// A failure reported by the host, with its textual description.
#[derive(Debug)]
pub struct OsError {
    pub description: String,
}

impl View for OsError {
    type V = Seq<char>;

    open spec fn view(&self) -> Seq<char> {
        self.description@
    }
}

/// Result of one power-off run.
#[derive(Debug)]
pub enum PowerOutcome {
    /// The host accepted the posted notification.
    Success,
    /// Some step failed; delivery was never attempted or not accepted.
    Failure(OsError),
}

/// [`PowerOutcome`], as a mathematical value.
pub enum PowerOutcomeModel {
    Success,
    Failure(Seq<char>),
}

impl View for PowerOutcome {
    type V = PowerOutcomeModel;

    open spec fn view(&self) -> PowerOutcomeModel {
        match self {
            PowerOutcome::Success => PowerOutcomeModel::Success,
            PowerOutcome::Failure(e) => PowerOutcomeModel::Failure(e@),
        }
    }
}

/// The notification posted to the message endpoint.
#[derive(Clone, Copy, Debug, PartialEq, Eq, Structural)]
pub struct PowerRequest {
    /// The message code.
    pub message: u32,
    /// The first message parameter.
    pub wparam: usize,
    /// The second message parameter.
    pub lparam: isize,
}

/// The one request this controller ever posts: a system command asking
/// for monitor power "off".
pub open spec fn spec_power_request() -> PowerRequest {
    PowerRequest { message: WM_SYSCOMMAND, wparam: SC_MONITORPOWER, lparam: MONITOR_POWER_OFF }
}

/// Description used when window creation hands back a null handle.
pub open spec fn null_endpoint_text() -> Seq<char> {
    "creating the message endpoint returned a null handle"@
}

/// Where a power-off run stands.
#[derive(Debug)]
pub enum PowerPhase {
    /// Nothing done yet: the module handle is needed first.
    NeedModule,
    /// The window class must be registered under this instance.
    NeedClass { instance: usize },
    /// The invisible endpoint window must be created under this
    /// instance.
    NeedEndpoint { instance: usize },
    /// The power-off notification must be posted to this window.
    NeedPost { window: usize },
    /// The run is over; no further call will ever be requested.
    Settled { failed: bool },
}

/// [`PowerPhase`], as a mathematical value.
pub enum PowerPhaseModel {
    NeedModule,
    NeedClass { instance: int },
    NeedEndpoint { instance: int },
    NeedPost { window: int },
    Settled { failed: bool },
}

impl View for PowerPhase {
    type V = PowerPhaseModel;

    open spec fn view(&self) -> PowerPhaseModel {
        match self {
            PowerPhase::NeedModule => PowerPhaseModel::NeedModule,
            PowerPhase::NeedClass { instance } => (PowerPhaseModel::NeedClass {
                instance: *instance as int,
            }),
            PowerPhase::NeedEndpoint { instance } => (PowerPhaseModel::NeedEndpoint {
                instance: *instance as int,
            }),
            PowerPhase::NeedPost { window } => (PowerPhaseModel::NeedPost {
                window: *window as int,
            }),
            PowerPhase::Settled { failed } => (PowerPhaseModel::Settled { failed: *failed }),
        }
    }
}

/// Completion of one host call, as reported back to the controller.
/// Handles travel as plain integers; failures carry the host's error
/// description.
#[derive(Debug)]
pub enum PowerEvent {
    /// The module-handle lookup finished.
    ModuleObtained(Result<usize, OsError>),
    /// The class registration finished.  Its result is deliberately not
    /// carried: registration is idempotent, and registering a name a
    /// second time in one process is not an error.
    ClassRegistered,
    /// The window creation finished.
    EndpointCreated(Result<usize, OsError>),
    /// The notification post finished.
    PostFinished(Result<(), OsError>),
}

/// [`PowerEvent`], as a mathematical value.
pub enum PowerEventModel {
    ModuleObtained(Result<int, Seq<char>>),
    ClassRegistered,
    EndpointCreated(Result<int, Seq<char>>),
    PostFinished(Result<(), Seq<char>>),
}

impl View for PowerEvent {
    type V = PowerEventModel;

    open spec fn view(&self) -> PowerEventModel {
        match self {
            PowerEvent::ModuleObtained(r) => PowerEventModel::ModuleObtained(
                match r {
                    Ok(h) => Ok(*h as int),
                    Err(e) => Err(e@),
                },
            ),
            PowerEvent::ClassRegistered => PowerEventModel::ClassRegistered,
            PowerEvent::EndpointCreated(r) => PowerEventModel::EndpointCreated(
                match r {
                    Ok(h) => Ok(*h as int),
                    Err(e) => Err(e@),
                },
            ),
            PowerEvent::PostFinished(r) => PowerEventModel::PostFinished(
                match r {
                    Ok(u) => Ok(*u),
                    Err(e) => Err(e@),
                },
            ),
        }
    }
}

/// What the controller asks the host to do next.
#[derive(Debug)]
pub enum PowerAction {
    /// Look up the handle of the current process's own module.
    ObtainModule,
    /// Register the window class named [`crate::application_name`]
    /// under this instance, with the pass-through message handler.
    RegisterClass { instance: usize },
    /// Create one invisible top-level window of that class under this
    /// instance: default position and size, no parent, no menu.
    CreateEndpoint { instance: usize },
    /// Post the given notification to this window's message queue and
    /// return without waiting for it to be processed.
    Post { window: usize, request: PowerRequest },
    /// The run is over with this outcome; nothing more to do.
    Conclude(PowerOutcome),
}

/// [`PowerAction`], as a mathematical value.
pub enum PowerActionModel {
    ObtainModule,
    RegisterClass { instance: int },
    CreateEndpoint { instance: int },
    Post { window: int, request: PowerRequest },
    Conclude(PowerOutcomeModel),
}

impl View for PowerAction {
    type V = PowerActionModel;

    open spec fn view(&self) -> PowerActionModel {
        match self {
            PowerAction::ObtainModule => PowerActionModel::ObtainModule,
            PowerAction::RegisterClass { instance } => (PowerActionModel::RegisterClass {
                instance: *instance as int,
            }),
            PowerAction::CreateEndpoint { instance } => (PowerActionModel::CreateEndpoint {
                instance: *instance as int,
            }),
            PowerAction::Post { window, request } => (PowerActionModel::Post {
                window: *window as int,
                request: *request,
            }),
            PowerAction::Conclude(o) => PowerActionModel::Conclude(o@),
        }
    }
}

/// The events a phase is prepared to take: exactly the completion of
/// the call that the phase is waiting for.  A settled controller takes
/// no event at all.
pub open spec fn power_accepts(p: PowerPhaseModel, e: PowerEventModel) -> bool {
    match (p, e) {
        (PowerPhaseModel::NeedModule, PowerEventModel::ModuleObtained(_)) => true,
        (PowerPhaseModel::NeedClass { .. }, PowerEventModel::ClassRegistered) => true,
        (PowerPhaseModel::NeedEndpoint { .. }, PowerEventModel::EndpointCreated(_)) => true,
        (PowerPhaseModel::NeedPost { .. }, PowerEventModel::PostFinished(_)) => true,
        _ => false,
    }
}

/// The whole controller: the next phase and the next request, for every
/// phase and accepted event.  (The final arm is never reached under
/// [`power_accepts`]; it leaves the phase alone.)
pub open spec fn spec_power_step(p: PowerPhaseModel, e: PowerEventModel) -> (
    PowerPhaseModel,
    PowerActionModel,
) {
    match (p, e) {
        (PowerPhaseModel::NeedModule, PowerEventModel::ModuleObtained(r)) => match r {
            Ok(h) => (
                PowerPhaseModel::NeedClass { instance: h },
                PowerActionModel::RegisterClass { instance: h },
            ),
            Err(d) => (
                PowerPhaseModel::Settled { failed: true },
                PowerActionModel::Conclude(PowerOutcomeModel::Failure(d)),
            ),
        },
        (PowerPhaseModel::NeedClass { instance }, PowerEventModel::ClassRegistered) => (
            PowerPhaseModel::NeedEndpoint { instance },
            PowerActionModel::CreateEndpoint { instance },
        ),
        (PowerPhaseModel::NeedEndpoint { .. }, PowerEventModel::EndpointCreated(r)) => match r {
            Ok(w) => if w != 0 {
                (
                    PowerPhaseModel::NeedPost { window: w },
                    PowerActionModel::Post { window: w, request: spec_power_request() },
                )
            } else {
                (
                    PowerPhaseModel::Settled { failed: true },
                    PowerActionModel::Conclude(PowerOutcomeModel::Failure(null_endpoint_text())),
                )
            },
            Err(d) => (
                PowerPhaseModel::Settled { failed: true },
                PowerActionModel::Conclude(PowerOutcomeModel::Failure(d)),
            ),
        },
        (PowerPhaseModel::NeedPost { .. }, PowerEventModel::PostFinished(r)) => match r {
            Ok(_) => (
                PowerPhaseModel::Settled { failed: false },
                PowerActionModel::Conclude(PowerOutcomeModel::Success),
            ),
            Err(d) => (
                PowerPhaseModel::Settled { failed: true },
                PowerActionModel::Conclude(PowerOutcomeModel::Failure(d)),
            ),
        },
        _ => (p, PowerActionModel::ObtainModule),
    }
}

/// The controller for one power-off run.
#[derive(Debug)]
pub struct PowerController {
    pub phase: PowerPhase,
}

impl View for PowerController {
    type V = PowerPhaseModel;

    open spec fn view(&self) -> PowerPhaseModel {
        self.phase@
    }
}

impl PowerController {
    /// Begin a run: the first thing the host must do is look up the
    /// module handle.
    pub fn begin() -> (r: (PowerController, PowerAction))
        ensures
            r.0@ == PowerPhaseModel::NeedModule,
            r.1@ == PowerActionModel::ObtainModule,
    {
        (PowerController { phase: PowerPhase::NeedModule }, PowerAction::ObtainModule)
    }

    /// Take the completion of the pending host call and say what to do
    /// next — exactly as [`spec_power_step`] prescribes.
    pub fn step(&mut self, e: PowerEvent) -> (a: PowerAction)
        requires
            power_accepts(old(self)@, e@),
        ensures
            (final(self)@, a@) == spec_power_step(old(self)@, e@),
    {
        match e {
            PowerEvent::ModuleObtained(r) => match r {
                Ok(h) => {
                    self.phase = PowerPhase::NeedClass { instance: h };
                    PowerAction::RegisterClass { instance: h }
                },
                Err(err) => {
                    self.phase = PowerPhase::Settled { failed: true };
                    PowerAction::Conclude(PowerOutcome::Failure(err))
                },
            },
            PowerEvent::ClassRegistered => {
                let instance: usize = match &self.phase {
                    PowerPhase::NeedClass { instance } => *instance,
                    _ => 0,
                };
                self.phase = PowerPhase::NeedEndpoint { instance };
                PowerAction::CreateEndpoint { instance }
            },
            PowerEvent::EndpointCreated(r) => match r {
                Ok(w) => {
                    if w != 0 {
                        self.phase = PowerPhase::NeedPost { window: w };
                        PowerAction::Post {
                            window: w,
                            request: PowerRequest {
                                message: WM_SYSCOMMAND,
                                wparam: SC_MONITORPOWER,
                                lparam: MONITOR_POWER_OFF,
                            },
                        }
                    } else {
                        self.phase = PowerPhase::Settled { failed: true };
                        PowerAction::Conclude(
                            PowerOutcome::Failure(
                                OsError {
                                    description:
                                        "creating the message endpoint returned a null handle".to_owned(),
                                },
                            ),
                        )
                    }
                },
                Err(err) => {
                    self.phase = PowerPhase::Settled { failed: true };
                    PowerAction::Conclude(PowerOutcome::Failure(err))
                },
            },
            PowerEvent::PostFinished(r) => match r {
                Ok(_) => {
                    self.phase = PowerPhase::Settled { failed: false };
                    PowerAction::Conclude(PowerOutcome::Success)
                },
                Err(err) => {
                    self.phase = PowerPhase::Settled { failed: true };
                    PowerAction::Conclude(PowerOutcome::Failure(err))
                },
            },
        }
    }
}

/// How far along a run a phase is.
pub open spec fn power_rank(p: PowerPhaseModel) -> int {
    match p {
        PowerPhaseModel::NeedModule => 0,
        PowerPhaseModel::NeedClass { .. } => 1,
        PowerPhaseModel::NeedEndpoint { .. } => 2,
        PowerPhaseModel::NeedPost { .. } => 3,
        PowerPhaseModel::Settled { .. } => 4,
    }
}

/// Every accepted event moves the controller strictly forward, so no
/// phase ever recurs within a run: each host call is requested at most
/// once, and in particular a failed post is never retried.
pub proof fn lemma_power_no_retry(p: PowerPhaseModel, e: PowerEventModel)
    requires
        power_accepts(p, e),
    ensures
        power_rank(spec_power_step(p, e).0) > power_rank(p),
{
}

/// Whatever is ever posted is the fixed power-off request, and it goes
/// to the non-null endpoint whose creation was just reported.
pub proof fn lemma_post_is_power_off(p: PowerPhaseModel, e: PowerEventModel)
    requires
        power_accepts(p, e),
    ensures
        spec_power_step(p, e).1 matches PowerActionModel::Post { window, request } ==> ({
            &&& request == spec_power_request()
            &&& e == PowerEventModel::EndpointCreated(Ok::<int, Seq<char>>(window))
            &&& window != 0
        }),
{
}

/// The run concludes successfully exactly when the host accepted the
/// posted notification; every earlier failure concludes the run as a
/// failure without reaching the post.
pub proof fn lemma_success_means_posted(p: PowerPhaseModel, e: PowerEventModel)
    requires
        power_accepts(p, e),
    ensures
        (spec_power_step(p, e).1 == PowerActionModel::Conclude(PowerOutcomeModel::Success)) <==> (p
            matches PowerPhaseModel::NeedPost { .. } && e == PowerEventModel::PostFinished(
            Ok::<(), Seq<char>>(()),
        )),
{
    match (p, e) {
        (PowerPhaseModel::NeedPost { .. }, PowerEventModel::PostFinished(r)) => {
            match r {
                Ok(u) => {
                    assert(u == ());
                },
                Err(_) => {
                },
            }
        },
        _ => {
        },
    }
}

} // verus!
