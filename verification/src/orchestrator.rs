//! Bringing the backend up, step by step, and taking it down.
//!
//! The orchestrator names one outside action at a time: create a directory,
//! reserve a port, probe a path, list a directory, open a log, launch, issue
//! a request, sleep. The host performs it and reports how it went. Finding
//! the executable, finding an earlier database and waiting for readiness are
//! the work of their own machines, which the orchestrator runs as its stages.
//! Whatever fails, the orchestrator ends in a state that the host can go on
//! with: a stand-in backend at an address where nothing listens.

use crate::error::{
    spec_answer_view, spec_opt_error, BootstrapError, BootstrapErrorView, IoTarget, PortStage,
};
use crate::health;
use crate::health::{HealthProber, HealthProberView, ProbeAction, ProbeActionView, ProbeEvent};
use crate::legacy;
use crate::legacy::{LegacyDbAction, LegacyDbActionView, LegacyDbLocator, LegacyDbView};
use crate::locator;
use crate::locator::{
    spec_bare_command, spec_listing_view, spec_opt_string, BackendCommand, BackendCommandView,
    BackendLocator, DirEntry, DirEntryView, LocatorAction, LocatorActionView, LocatorEvent,
    LocatorEventView, LocatorRequest, LocatorRequestView, LocatorView,
};
use crate::paths::{
    anchor_failure, resolve_seekjob_data_dir, spec_anchor_failure, spec_api_base,
    spec_database_file, spec_is_absolute, spec_logs_dir, spec_opt_text, spec_resolve_data_dir,
    spec_stderr_log, spec_stdout_log, spec_working_dir, stderr_log, stdout_log,
    working_dir_text, ResolvedPaths, ResolvedPathsView,
};
use crate::supervisor::{
    launch_plan, spec_degraded, spec_kill, spec_launch_plan, spec_running, LaunchPlan,
    LaunchPlanView, SupervisedProcess, SupervisedProcessView,
};
use vstd::multiset::Multiset;
use vstd::prelude::*;
use vstd::string::*;

verus! {

/// How long the backend is given to report ready, in milliseconds.
pub const READINESS_LIMIT_MS: u64 = 70_000;

/// The orchestrator's states as the host sees them.
#[derive(Clone, Copy, Debug, PartialEq, Eq, Structural)]
pub enum Lifecycle {
    NotStarted,
    Starting,
    Ready,
    Failed,
    Stopped,
}

/// The orchestrator's states in full: what it waits for, and the machine
/// that is at work where one is.
#[derive(Debug)]
pub enum Stage {
    NotStarted,
    CreatingDataDir,
    CreatingLogsDir,
    ReservingPort,
    Locating(BackendLocator),
    OpeningStdoutLog,
    OpeningStderrLog,
    ResolvingLegacyDb(LegacyDbLocator),
    Spawning,
    Probing(HealthProber),
    /// The start has failed; the logs directory of the stand-in is being
    /// created, as far as that is possible.
    Degrading,
    Ready,
    Failed,
    Stopped,
}

/// A `Stage` as a mathematical value.
pub ghost enum StageView {
    NotStarted,
    CreatingDataDir,
    CreatingLogsDir,
    ReservingPort,
    Locating(LocatorView),
    OpeningStdoutLog,
    OpeningStderrLog,
    ResolvingLegacyDb(LegacyDbView),
    Spawning,
    Probing(HealthProberView),
    Degrading,
    Ready,
    Failed,
    Stopped,
}

impl View for Stage {
    type V = StageView;

    open spec fn view(&self) -> StageView {
        match *self {
            Stage::NotStarted => StageView::NotStarted,
            Stage::CreatingDataDir => StageView::CreatingDataDir,
            Stage::CreatingLogsDir => StageView::CreatingLogsDir,
            Stage::ReservingPort => StageView::ReservingPort,
            Stage::Locating(locator) => StageView::Locating(locator@),
            Stage::OpeningStdoutLog => StageView::OpeningStdoutLog,
            Stage::OpeningStderrLog => StageView::OpeningStderrLog,
            Stage::ResolvingLegacyDb(locator) => StageView::ResolvingLegacyDb(locator@),
            Stage::Spawning => StageView::Spawning,
            Stage::Probing(prober) => StageView::Probing(prober@),
            Stage::Degrading => StageView::Degrading,
            Stage::Ready => StageView::Ready,
            Stage::Failed => StageView::Failed,
            Stage::Stopped => StageView::Stopped,
        }
    }
}

/// Where the data directory's name may come from.
#[derive(Debug, PartialEq, Eq)]
pub struct DataDirSources {
    /// The value of the variable that overrides the data directory.
    pub override_dir: Option<String>,
    /// The value of the variable that names the home directory.
    pub home: Option<String>,
    /// The host's directory for application data, or why it has none.
    pub app_data_dir: Result<String, String>,
}

/// What the host knows before the start: everything that the environment
/// and the host itself say, read once.
#[derive(Debug, PartialEq, Eq)]
pub struct StartupInputs {
    pub data_dir: DataDirSources,
    /// The directory that the host works in, or why the host cannot name
    /// it. The backend inherits it, so a data directory that does not begin
    /// at the root lies below it.
    pub working_dir: Result<String, String>,
    pub backend: LocatorRequest,
    /// The value of the variable that names an earlier database.
    pub legacy_db_hint: Option<String>,
}

/// A `StartupInputs` as a mathematical value.
pub ghost struct StartupInputsView {
    pub override_dir: Option<Seq<char>>,
    pub home: Option<Seq<char>>,
    pub app_data_dir: Result<Seq<char>, Seq<char>>,
    pub working_dir: Result<Seq<char>, Seq<char>>,
    pub backend: LocatorRequestView,
    pub legacy_db_hint: Option<Seq<char>>,
}

impl View for StartupInputs {
    type V = StartupInputsView;

    open spec fn view(&self) -> StartupInputsView {
        StartupInputsView {
            override_dir: spec_opt_string(self.data_dir.override_dir),
            home: spec_opt_string(self.data_dir.home),
            app_data_dir: spec_answer_view(self.data_dir.app_data_dir),
            working_dir: spec_answer_view(self.working_dir),
            backend: self.backend@,
            legacy_db_hint: spec_opt_string(self.legacy_db_hint),
        }
    }
}

/// Why no port could be reserved.
#[derive(Clone, Debug, PartialEq, Eq)]
pub struct PortFailure {
    pub stage: PortStage,
    pub detail: String,
}

/// How an outside action went. `H` is the host's reference to a launched
/// process.
#[derive(Debug, PartialEq, Eq)]
pub enum StartupEvent<H> {
    /// The host asks for the backend to be started.
    Begin,
    /// The directory exists now, or could not be created.
    DirCreated(Result<(), String>),
    /// A port was reserved, or none could be.
    PortReserved(Result<u16, PortFailure>),
    /// Whether the probed path exists.
    Exists(bool),
    /// The entries of the listed directory, or `None` where it cannot be read.
    Listing(Option<Vec<DirEntry>>),
    /// The log is open for appending, or could not be opened.
    LogOpened(Result<(), String>),
    /// The backend runs, or could not be launched.
    Spawned(Result<H, String>),
    /// The request's outcome: the status of the response, or `None` where the
    /// request failed.
    Response(Option<u16>),
    /// The pause is over.
    Woke,
}

/// A `StartupEvent` as a mathematical value.
pub ghost enum StartupEventView<H> {
    Begin,
    DirCreated(Result<(), Seq<char>>),
    PortReserved(Result<u16, (PortStage, Seq<char>)>),
    Exists(bool),
    Listing(Option<Seq<DirEntryView>>),
    LogOpened(Result<(), Seq<char>>),
    Spawned(Result<H, Seq<char>>),
    Response(Option<u16>),
    Woke,
}

/// The outcome of an action without a result as a mathematical value.
pub open spec fn spec_unit_view(outcome: Result<(), String>) -> Result<(), Seq<char>> {
    match outcome {
        Ok(_) => Ok(()),
        Err(detail) => Err(detail@),
    }
}

impl<H> View for StartupEvent<H> {
    type V = StartupEventView<H>;

    open spec fn view(&self) -> StartupEventView<H> {
        match *self {
            StartupEvent::Begin => StartupEventView::Begin,
            StartupEvent::DirCreated(outcome) => StartupEventView::DirCreated(
                spec_unit_view(outcome),
            ),
            StartupEvent::PortReserved(Ok(port)) => StartupEventView::PortReserved(Ok(port)),
            StartupEvent::PortReserved(Err(failure)) => StartupEventView::PortReserved(
                Err((failure.stage, failure.detail@)),
            ),
            StartupEvent::Exists(present) => StartupEventView::Exists(present),
            StartupEvent::Listing(listing) => StartupEventView::Listing(
                spec_listing_view(listing),
            ),
            StartupEvent::LogOpened(outcome) => StartupEventView::LogOpened(
                spec_unit_view(outcome),
            ),
            StartupEvent::Spawned(Ok(handle)) => StartupEventView::Spawned(Ok(handle)),
            StartupEvent::Spawned(Err(detail)) => StartupEventView::Spawned(Err(detail@)),
            StartupEvent::Response(status) => StartupEventView::Response(status),
            StartupEvent::Woke => StartupEventView::Woke,
        }
    }
}

/// What the orchestrator asks of the host.
#[derive(Clone, Debug, PartialEq, Eq)]
pub enum StartupAction {
    /// Nothing yet: the start has not been asked for.
    AwaitBegin,
    /// Create this directory and those above it.
    CreateDir(String),
    /// Reserve a port on the loopback interface.
    ReservePort,
    /// Say whether this path exists.
    Probe(String),
    /// List this directory.
    List(String),
    /// Open this file for appending, creating it if it is missing.
    OpenLog(String),
    /// Launch the backend, its output appended to the two logs just opened.
    Spawn(LaunchPlan),
    /// Issue a GET request to this address.
    Get(String),
    /// Sleep for this many milliseconds.
    Sleep(u64),
    /// Nothing more: the start is over, one way or the other.
    Finished,
}

/// A `StartupAction` as a mathematical value.
pub ghost enum StartupActionView {
    AwaitBegin,
    CreateDir(Seq<char>),
    ReservePort,
    Probe(Seq<char>),
    List(Seq<char>),
    OpenLog(Seq<char>),
    Spawn(LaunchPlanView),
    Get(Seq<char>),
    Sleep(nat),
    Finished,
}

impl View for StartupAction {
    type V = StartupActionView;

    open spec fn view(&self) -> StartupActionView {
        match *self {
            StartupAction::AwaitBegin => StartupActionView::AwaitBegin,
            StartupAction::CreateDir(path) => StartupActionView::CreateDir(path@),
            StartupAction::ReservePort => StartupActionView::ReservePort,
            StartupAction::Probe(path) => StartupActionView::Probe(path@),
            StartupAction::List(dir) => StartupActionView::List(dir@),
            StartupAction::OpenLog(path) => StartupActionView::OpenLog(path@),
            StartupAction::Spawn(plan) => StartupActionView::Spawn(plan@),
            StartupAction::Get(url) => StartupActionView::Get(url@),
            StartupAction::Sleep(ms) => StartupActionView::Sleep(ms as nat),
            StartupAction::Finished => StartupActionView::Finished,
        }
    }
}

/// What the start has gathered, apart from the stage it is in.
struct Progress<H> {
    inputs: StartupInputs,
    process: SupervisedProcess<H>,
    port: u16,
    command: BackendCommand,
    legacy_db_path: String,
    error: Option<BootstrapError>,
}

/// The orchestrator: how far the start has come, the backend as far as it is
/// known, and what the start has gathered for the launch.
pub struct BootstrapOrchestrator<H> {
    stage: Stage,
    progress: Progress<H>,
}

/// A `BootstrapOrchestrator` as a mathematical value.
pub ghost struct OrchestratorView<H> {
    pub stage: StageView,
    pub inputs: StartupInputsView,
    pub process: SupervisedProcessView<H>,
    pub port: u16,
    pub command: BackendCommandView,
    pub legacy_db_path: Seq<char>,
    pub error: Option<BootstrapErrorView>,
}

impl<H> Progress<H> {
    /// The orchestrator that has come this far and is in `stage`.
    closed spec fn at_stage(self, stage: StageView) -> OrchestratorView<H> {
        OrchestratorView {
            stage,
            inputs: self.inputs@,
            process: self.process@,
            port: self.port,
            command: self.command@,
            legacy_db_path: self.legacy_db_path@,
            error: spec_opt_error(self.error),
        }
    }
}

impl<H> View for BootstrapOrchestrator<H> {
    type V = OrchestratorView<H>;

    closed spec fn view(&self) -> OrchestratorView<H> {
        self.progress.at_stage(self.stage@)
    }
}

/// The state that the host sees in `stage`.
pub open spec fn spec_lifecycle(stage: StageView) -> Lifecycle {
    match stage {
        StageView::NotStarted => Lifecycle::NotStarted,
        StageView::Ready => Lifecycle::Ready,
        StageView::Failed => Lifecycle::Failed,
        StageView::Stopped => Lifecycle::Stopped,
        _ => Lifecycle::Starting,
    }
}

/// The data directory of a host that could not name one.
pub open spec fn spec_fallback_data_dir() -> Seq<char> {
    "."@
}

/// The orchestrator before the start.
pub open spec fn spec_new<H>(inputs: StartupInputsView) -> OrchestratorView<H> {
    OrchestratorView {
        stage: StageView::NotStarted,
        inputs,
        process: spec_degraded(spec_fallback_data_dir()),
        port: 0,
        command: spec_bare_command(Seq::empty()),
        legacy_db_path: Seq::empty(),
        error: None,
    }
}

/// What the orchestrator in state `o` asks next.
pub open spec fn spec_action<H>(o: OrchestratorView<H>) -> StartupActionView {
    match o.stage {
        StageView::NotStarted => StartupActionView::AwaitBegin,
        StageView::CreatingDataDir => StartupActionView::CreateDir(o.process.data_dir),
        StageView::CreatingLogsDir => StartupActionView::CreateDir(o.process.logs_dir),
        StageView::ReservingPort => StartupActionView::ReservePort,
        StageView::Locating(l) => match locator::spec_action(l) {
            LocatorActionView::Probe(path) => StartupActionView::Probe(path),
            LocatorActionView::List(dir) => StartupActionView::List(dir),
            LocatorActionView::Done(_) => StartupActionView::Finished,
        },
        StageView::OpeningStdoutLog => StartupActionView::OpenLog(
            spec_stdout_log(o.process.logs_dir),
        ),
        StageView::OpeningStderrLog => StartupActionView::OpenLog(
            spec_stderr_log(o.process.logs_dir),
        ),
        StageView::ResolvingLegacyDb(l) => match legacy::spec_action(l) {
            LegacyDbActionView::Probe(path) => StartupActionView::Probe(path),
            LegacyDbActionView::Done(_) => StartupActionView::Finished,
        },
        StageView::Spawning => StartupActionView::Spawn(
            spec_launch_plan(
                o.command,
                o.port,
                spec_working_dir(o.inputs.working_dir),
                ResolvedPathsView { data_dir: o.process.data_dir, logs_dir: o.process.logs_dir },
                o.legacy_db_path,
            ),
        ),
        StageView::Probing(p) => match health::spec_action(p) {
            ProbeActionView::Get(url) => StartupActionView::Get(url),
            ProbeActionView::Sleep(ms) => StartupActionView::Sleep(ms),
            ProbeActionView::Done(_) => StartupActionView::Finished,
        },
        StageView::Degrading => StartupActionView::CreateDir(o.process.logs_dir),
        StageView::Ready | StageView::Failed | StageView::Stopped => StartupActionView::Finished,
    }
}

/// The start gives up with `error`, the data directory being `data_dir`:
/// the backend is replaced by its stand-in, and the process, if one is held,
/// is handed out to be terminated.
pub open spec fn spec_fail_in<H>(
    o: OrchestratorView<H>,
    data_dir: Seq<char>,
    error: BootstrapErrorView,
) -> (OrchestratorView<H>, Option<H>) {
    (
        OrchestratorView {
            stage: StageView::Degrading,
            process: spec_degraded(data_dir),
            error: Some(error),
            ..o
        },
        o.process.handle,
    )
}

/// The start gives up with `error`, the data directory staying as it is.
pub open spec fn spec_fail<H>(o: OrchestratorView<H>, error: BootstrapErrorView) -> (
    OrchestratorView<H>,
    Option<H>,
) {
    spec_fail_in(o, o.process.data_dir, error)
}

/// The start moves on to `stage`.
pub open spec fn spec_advance<H>(o: OrchestratorView<H>, stage: StageView) -> (
    OrchestratorView<H>,
    Option<H>,
) {
    (OrchestratorView { stage, ..o }, None)
}

/// The start with the executable's locator in state `l`: it goes on to the
/// logs with the command that the locator reports, gives up with the error
/// that it reports, and else waits for the locator's next answer.
pub open spec fn spec_after_locating<H>(o: OrchestratorView<H>, l: LocatorView) -> (
    OrchestratorView<H>,
    Option<H>,
) {
    match locator::spec_action(l) {
        LocatorActionView::Done(Ok(command)) => (
            OrchestratorView { stage: StageView::OpeningStdoutLog, command, ..o },
            None,
        ),
        LocatorActionView::Done(Err(error)) => spec_fail(o, error),
        _ => spec_advance(o, StageView::Locating(l)),
    }
}

/// The start with the earlier database's locator in state `l`: it goes on to
/// the launch with the path that the locator reports, and else waits for the
/// locator's next answer.
pub open spec fn spec_after_legacy<H>(o: OrchestratorView<H>, l: LegacyDbView) -> (
    OrchestratorView<H>,
    Option<H>,
) {
    match legacy::spec_action(l) {
        LegacyDbActionView::Done(path) => (
            OrchestratorView { stage: StageView::Spawning, legacy_db_path: path, ..o },
            None,
        ),
        LegacyDbActionView::Probe(_) => spec_advance(o, StageView::ResolvingLegacyDb(l)),
    }
}

/// The start with the prober in state `p`: it is over once the prober reports
/// ready, gives up once the prober does, and else waits for the prober's next
/// answer.
pub open spec fn spec_after_probing<H>(o: OrchestratorView<H>, p: HealthProberView) -> (
    OrchestratorView<H>,
    Option<H>,
) {
    match health::spec_action(p) {
        ProbeActionView::Done(true) => spec_advance(o, StageView::Ready),
        ProbeActionView::Done(false) => spec_fail(o, BootstrapErrorView::ReadinessTimeout),
        _ => spec_advance(o, StageView::Probing(p)),
    }
}

/// The state after `event`, and the process that the host must terminate, if
/// any. The start begins with the data directory: where none can be named,
/// or where the database file inside it has no absolute path because the
/// host cannot name its working directory, the start gives up at once. An
/// event that does not answer the pending question leaves the state as it
/// is; a process that comes with such an event is handed back.
pub open spec fn spec_step<H>(o: OrchestratorView<H>, event: StartupEventView<H>) -> (
    OrchestratorView<H>,
    Option<H>,
) {
    match (o.stage, event) {
        (StageView::NotStarted, StartupEventView::Begin) => match spec_resolve_data_dir(
            o.inputs.override_dir,
            o.inputs.home,
            o.inputs.app_data_dir,
        ) {
            Ok(dir) => match spec_anchor_failure(o.inputs.working_dir, dir) {
                None => (
                    OrchestratorView {
                        stage: StageView::CreatingDataDir,
                        process: spec_degraded(dir),
                        ..o
                    },
                    o.process.handle,
                ),
                Some(error) => spec_fail_in(o, dir, error),
            },
            Err(error) => spec_fail(o, error),
        },
        (StageView::CreatingDataDir, StartupEventView::DirCreated(outcome)) => match outcome {
            Ok(_) => spec_advance(o, StageView::CreatingLogsDir),
            Err(detail) => spec_fail(
                o,
                BootstrapErrorView::Io { target: IoTarget::DataDir, detail },
            ),
        },
        (StageView::CreatingLogsDir, StartupEventView::DirCreated(outcome)) => match outcome {
            Ok(_) => spec_advance(o, StageView::ReservingPort),
            Err(detail) => spec_fail(
                o,
                BootstrapErrorView::Io { target: IoTarget::LogsDir, detail },
            ),
        },
        (StageView::ReservingPort, StartupEventView::PortReserved(outcome)) => match outcome {
            Ok(port) => spec_after_locating(
                OrchestratorView { port, ..o },
                locator::spec_new(o.inputs.backend),
            ),
            Err(failure) => spec_fail(
                o,
                BootstrapErrorView::Allocation { stage: failure.0, detail: failure.1 },
            ),
        },
        (StageView::Locating(l), StartupEventView::Exists(present)) => spec_after_locating(
            o,
            locator::spec_step(l, LocatorEventView::Exists(present)),
        ),
        (StageView::Locating(l), StartupEventView::Listing(listing)) => spec_after_locating(
            o,
            locator::spec_step(l, LocatorEventView::Listing(listing)),
        ),
        (StageView::OpeningStdoutLog, StartupEventView::LogOpened(outcome)) => match outcome {
            Ok(_) => spec_advance(o, StageView::OpeningStderrLog),
            Err(detail) => spec_fail(
                o,
                BootstrapErrorView::Io { target: IoTarget::StdoutLog, detail },
            ),
        },
        (StageView::OpeningStderrLog, StartupEventView::LogOpened(outcome)) => match outcome {
            Ok(_) => spec_after_legacy(o, legacy::spec_new(o.inputs.legacy_db_hint)),
            Err(detail) => spec_fail(
                o,
                BootstrapErrorView::Io { target: IoTarget::StderrLog, detail },
            ),
        },
        (StageView::ResolvingLegacyDb(l), StartupEventView::Exists(present)) => spec_after_legacy(
            o,
            legacy::spec_step(l, present),
        ),
        (StageView::Spawning, StartupEventView::Spawned(outcome)) => match outcome {
            Ok(handle) => (
                OrchestratorView {
                    stage: StageView::Probing(
                        health::spec_new(spec_api_base(o.port), READINESS_LIMIT_MS as nat),
                    ),
                    process: spec_running(handle, o.port, o.process.data_dir),
                    ..o
                },
                o.process.handle,
            ),
            Err(detail) => spec_fail(
                o,
                BootstrapErrorView::Spawn { program: o.command.program, detail },
            ),
        },
        (StageView::Probing(p), StartupEventView::Response(status)) => spec_after_probing(
            o,
            health::spec_step(p, ProbeEvent::Response(status)),
        ),
        (StageView::Probing(p), StartupEventView::Woke) => spec_after_probing(
            o,
            health::spec_step(p, ProbeEvent::Woke),
        ),
        (StageView::Degrading, StartupEventView::DirCreated(_)) => spec_advance(
            o,
            StageView::Failed,
        ),
        (_, StartupEventView::Spawned(Ok(handle))) => (o, Some(handle)),
        _ => (o, None),
    }
}

/// The state after the host's shutdown, and the process that the host must
/// terminate, if any. Before the start is over there is nothing to stop.
pub open spec fn spec_stop<H>(o: OrchestratorView<H>) -> (OrchestratorView<H>, Option<H>) {
    match o.stage {
        StageView::Ready | StageView::Failed | StageView::Stopped => (
            OrchestratorView { stage: StageView::Stopped, process: spec_kill(o.process).0, ..o },
            spec_kill(o.process).1,
        ),
        _ => (o, None),
    }
}

/// The text of an optional string.
fn as_text(text: &Option<String>) -> (borrowed: Option<&str>)
    ensures
        spec_opt_text(borrowed) == spec_opt_string(*text),
{
    match text {
        Some(t) => Some(t.as_str()),
        None => None,
    }
}

/// A copy of what the host said of one of its directories.
fn duplicate_answer(answer: &Result<String, String>) -> (copy: Result<String, String>)
    ensures
        answer is Ok <==> copy is Ok,
        answer matches Ok(dir) ==> copy->Ok_0@ == dir@,
        answer matches Err(detail) ==> copy->Err_0@ == detail@,
{
    match answer {
        Ok(dir) => Ok(dir.clone()),
        Err(detail) => Err(detail.clone()),
    }
}

/// The process that comes with `event`, if one does.
pub open spec fn spec_event_handle<H>(event: StartupEventView<H>) -> Option<H> {
    match event {
        StartupEventView::Spawned(Ok(handle)) => Some(handle),
        _ => None,
    }
}

impl<H> Progress<H> {
    /// The orchestrator in `stage`.
    fn at(self, stage: Stage) -> (result: (BootstrapOrchestrator<H>, Option<H>))
        ensures
            (result.0@, result.1) == spec_advance(self.at_stage(stage@), stage@),
    {
        (BootstrapOrchestrator { stage, progress: self }, None)
    }

    /// The orchestrator still in `stage`, and the process that came with the
    /// event, if one did.
    fn ignore(self, stage: Stage, event: StartupEvent<H>) -> (result: (
        BootstrapOrchestrator<H>,
        Option<H>,
    ))
        ensures
            (result.0@, result.1) == (self.at_stage(stage@), spec_event_handle(event@)),
    {
        let handed_back = match event {
            StartupEvent::Spawned(Ok(handle)) => Some(handle),
            _ => None,
        };
        (BootstrapOrchestrator { stage, progress: self }, handed_back)
    }

    /// Gives the start up with `error`, the data directory being `data_dir`.
    fn fail_in(self, data_dir: String, error: BootstrapError) -> (result: (
        BootstrapOrchestrator<H>,
        Option<H>,
    ))
        ensures
            (result.0@, result.1) == spec_fail_in(
                self.at_stage(StageView::Degrading),
                data_dir@,
                error@,
            ),
    {
        let mut progress = self;
        let victim = progress.process.kill_if_present();
        progress.process = SupervisedProcess::degraded(data_dir);
        progress.error = Some(error);
        (BootstrapOrchestrator { stage: Stage::Degrading, progress }, victim)
    }

    /// Gives the start up with `error`.
    fn fail(self, error: BootstrapError) -> (result: (BootstrapOrchestrator<H>, Option<H>))
        ensures
            (result.0@, result.1) == spec_fail(self.at_stage(StageView::Degrading), error@),
    {
        let data_dir = self.process.data_dir();
        self.fail_in(data_dir, error)
    }

    /// Goes on from the executable's locator.
    fn after_locating(self, locator: BackendLocator) -> (result: (
        BootstrapOrchestrator<H>,
        Option<H>,
    ))
        ensures
            (result.0@, result.1) == spec_after_locating(
                self.at_stage(StageView::Degrading),
                locator@,
            ),
    {
        match locator.action() {
            LocatorAction::Done(Ok(command)) => {
                let mut progress = self;
                progress.command = command;
                (BootstrapOrchestrator { stage: Stage::OpeningStdoutLog, progress }, None)
            },
            LocatorAction::Done(Err(error)) => self.fail(error),
            _ => self.at(Stage::Locating(locator)),
        }
    }

    /// Goes on from the earlier database's locator.
    fn after_legacy(self, locator: LegacyDbLocator) -> (result: (
        BootstrapOrchestrator<H>,
        Option<H>,
    ))
        ensures
            (result.0@, result.1) == spec_after_legacy(
                self.at_stage(StageView::Degrading),
                locator@,
            ),
    {
        match locator.action() {
            LegacyDbAction::Done(path) => {
                let mut progress = self;
                progress.legacy_db_path = path;
                (BootstrapOrchestrator { stage: Stage::Spawning, progress }, None)
            },
            LegacyDbAction::Probe(_) => self.at(Stage::ResolvingLegacyDb(locator)),
        }
    }

    /// Goes on from the prober.
    fn after_probing(self, prober: HealthProber) -> (result: (
        BootstrapOrchestrator<H>,
        Option<H>,
    ))
        ensures
            (result.0@, result.1) == spec_after_probing(
                self.at_stage(StageView::Degrading),
                prober@,
            ),
    {
        match prober.action() {
            ProbeAction::Done(true) => self.at(Stage::Ready),
            ProbeAction::Done(false) => self.fail(BootstrapError::ReadinessTimeout),
            _ => self.at(Stage::Probing(prober)),
        }
    }
}

impl<H> BootstrapOrchestrator<H> {
    /// The orchestrator before the start, for what the host knows.
    pub fn new(inputs: StartupInputs) -> (orchestrator: BootstrapOrchestrator<H>)
        ensures
            orchestrator@ == spec_new::<H>(inputs@),
    {
        let command = BackendCommand { program: String::new(), args: Vec::new() };
        assert(command@.args =~= Seq::empty());
        BootstrapOrchestrator {
            stage: Stage::NotStarted,
            progress: Progress {
                inputs,
                process: SupervisedProcess::degraded(".".to_owned()),
                port: 0,
                command,
                legacy_db_path: String::new(),
                error: None,
            },
        }
    }

    /// The state that the host sees.
    pub fn lifecycle(&self) -> (lifecycle: Lifecycle)
        ensures
            lifecycle == spec_lifecycle(self@.stage),
    {
        match &self.stage {
            Stage::NotStarted => Lifecycle::NotStarted,
            Stage::Ready => Lifecycle::Ready,
            Stage::Failed => Lifecycle::Failed,
            Stage::Stopped => Lifecycle::Stopped,
            _ => Lifecycle::Starting,
        }
    }

    /// The address at which the backend's API is served, or that of the
    /// stand-in.
    pub fn api_base(&self) -> (address: String)
        ensures
            address@ == self@.process.api_base,
    {
        self.progress.process.api_base()
    }

    /// The directories that the backend works in.
    pub fn app_paths(&self) -> (paths: ResolvedPaths)
        ensures
            paths@ == (ResolvedPathsView {
                data_dir: self@.process.data_dir,
                logs_dir: self@.process.logs_dir,
            }),
    {
        self.progress.process.app_paths()
    }

    /// Whether a process is held.
    pub fn is_running(&self) -> (held: bool)
        ensures
            held == self@.process.handle is Some,
    {
        self.progress.process.is_running()
    }

    /// Why the start failed, if it did.
    pub fn error(&self) -> (reason: Option<BootstrapError>)
        ensures
            spec_opt_error(reason) == self@.error,
    {
        match &self.progress.error {
            Some(e) => Some(e.duplicate()),
            None => None,
        }
    }

    /// What the orchestrator asks next.
    pub fn action(&self) -> (action: StartupAction)
        ensures
            action@ == spec_action(self@),
    {
        let process = &self.progress.process;
        match &self.stage {
            Stage::NotStarted => StartupAction::AwaitBegin,
            Stage::CreatingDataDir => StartupAction::CreateDir(process.data_dir()),
            Stage::CreatingLogsDir => StartupAction::CreateDir(process.logs_dir()),
            Stage::ReservingPort => StartupAction::ReservePort,
            Stage::Locating(locator) => match locator.action() {
                LocatorAction::Probe(path) => StartupAction::Probe(path),
                LocatorAction::List(dir) => StartupAction::List(dir),
                LocatorAction::Done(_) => StartupAction::Finished,
            },
            Stage::OpeningStdoutLog => StartupAction::OpenLog(
                stdout_log(process.logs_dir().as_str()),
            ),
            Stage::OpeningStderrLog => StartupAction::OpenLog(
                stderr_log(process.logs_dir().as_str()),
            ),
            Stage::ResolvingLegacyDb(locator) => match locator.action() {
                LegacyDbAction::Probe(path) => StartupAction::Probe(path),
                LegacyDbAction::Done(_) => StartupAction::Finished,
            },
            Stage::Spawning => StartupAction::Spawn(
                launch_plan(
                    &self.progress.command,
                    self.progress.port,
                    working_dir_text(&self.progress.inputs.working_dir).as_str(),
                    &process.app_paths(),
                    self.progress.legacy_db_path.as_str(),
                ),
            ),
            Stage::Probing(prober) => match prober.action() {
                ProbeAction::Get(url) => StartupAction::Get(url),
                ProbeAction::Sleep(ms) => StartupAction::Sleep(ms),
                ProbeAction::Done(_) => StartupAction::Finished,
            },
            Stage::Degrading => StartupAction::CreateDir(process.logs_dir()),
            Stage::Ready | Stage::Failed | Stage::Stopped => StartupAction::Finished,
        }
    }

    /// The state after `event`, and the process that the caller must
    /// terminate, if any.
    pub fn step(self, event: StartupEvent<H>) -> (result: (BootstrapOrchestrator<H>, Option<H>))
        ensures
            (result.0@, result.1) == spec_step(self@, event@),
    {
        let BootstrapOrchestrator { stage, progress } = self;
        match stage {
            Stage::NotStarted => match event {
                StartupEvent::Begin => {
                    let mut progress = progress;
                    let resolved = resolve_seekjob_data_dir(
                        as_text(&progress.inputs.data_dir.override_dir),
                        as_text(&progress.inputs.data_dir.home),
                        duplicate_answer(&progress.inputs.data_dir.app_data_dir),
                    );
                    match resolved {
                        Ok(dir) => match anchor_failure(
                            &progress.inputs.working_dir,
                            dir.as_str(),
                        ) {
                            None => {
                                let victim = progress.process.kill_if_present();
                                progress.process = SupervisedProcess::degraded(dir);
                                (
                                    BootstrapOrchestrator {
                                        stage: Stage::CreatingDataDir,
                                        progress,
                                    },
                                    victim,
                                )
                            },
                            Some(error) => progress.fail_in(dir, error),
                        },
                        Err(error) => progress.fail(error),
                    }
                },
                other => progress.ignore(Stage::NotStarted, other),
            },
            Stage::CreatingDataDir => match event {
                StartupEvent::DirCreated(Ok(_)) => progress.at(Stage::CreatingLogsDir),
                StartupEvent::DirCreated(Err(detail)) => progress.fail(
                    BootstrapError::Io { target: IoTarget::DataDir, detail },
                ),
                other => progress.ignore(Stage::CreatingDataDir, other),
            },
            Stage::CreatingLogsDir => match event {
                StartupEvent::DirCreated(Ok(_)) => progress.at(Stage::ReservingPort),
                StartupEvent::DirCreated(Err(detail)) => progress.fail(
                    BootstrapError::Io { target: IoTarget::LogsDir, detail },
                ),
                other => progress.ignore(Stage::CreatingLogsDir, other),
            },
            Stage::ReservingPort => match event {
                StartupEvent::PortReserved(Ok(port)) => {
                    let mut progress = progress;
                    progress.port = port;
                    let locator = BackendLocator::new(&progress.inputs.backend);
                    progress.after_locating(locator)
                },
                StartupEvent::PortReserved(Err(failure)) => progress.fail(
                    BootstrapError::Allocation { stage: failure.stage, detail: failure.detail },
                ),
                other => progress.ignore(Stage::ReservingPort, other),
            },
            Stage::Locating(locator) => match event {
                StartupEvent::Exists(present) => progress.after_locating(
                    locator.step(LocatorEvent::Exists(present)),
                ),
                StartupEvent::Listing(listing) => progress.after_locating(
                    locator.step(LocatorEvent::Listing(listing)),
                ),
                other => progress.ignore(Stage::Locating(locator), other),
            },
            Stage::OpeningStdoutLog => match event {
                StartupEvent::LogOpened(Ok(_)) => progress.at(Stage::OpeningStderrLog),
                StartupEvent::LogOpened(Err(detail)) => progress.fail(
                    BootstrapError::Io { target: IoTarget::StdoutLog, detail },
                ),
                other => progress.ignore(Stage::OpeningStdoutLog, other),
            },
            Stage::OpeningStderrLog => match event {
                StartupEvent::LogOpened(Ok(_)) => {
                    let locator = LegacyDbLocator::new(as_text(&progress.inputs.legacy_db_hint));
                    progress.after_legacy(locator)
                },
                StartupEvent::LogOpened(Err(detail)) => progress.fail(
                    BootstrapError::Io { target: IoTarget::StderrLog, detail },
                ),
                other => progress.ignore(Stage::OpeningStderrLog, other),
            },
            Stage::ResolvingLegacyDb(locator) => match event {
                StartupEvent::Exists(present) => progress.after_legacy(locator.step(present)),
                other => progress.ignore(Stage::ResolvingLegacyDb(locator), other),
            },
            Stage::Spawning => match event {
                StartupEvent::Spawned(Ok(handle)) => {
                    let mut progress = progress;
                    let victim = progress.process.kill_if_present();
                    progress.process = SupervisedProcess::running(
                        handle,
                        progress.port,
                        progress.process.data_dir(),
                    );
                    let prober = HealthProber::new(
                        progress.process.api_base().as_str(),
                        READINESS_LIMIT_MS,
                    );
                    (BootstrapOrchestrator { stage: Stage::Probing(prober), progress }, victim)
                },
                StartupEvent::Spawned(Err(detail)) => {
                    let program = progress.command.program.clone();
                    progress.fail(BootstrapError::Spawn { program, detail })
                },
                other => progress.ignore(Stage::Spawning, other),
            },
            Stage::Probing(prober) => match event {
                StartupEvent::Response(status) => progress.after_probing(
                    prober.step(ProbeEvent::Response(status)),
                ),
                StartupEvent::Woke => progress.after_probing(prober.step(ProbeEvent::Woke)),
                other => progress.ignore(Stage::Probing(prober), other),
            },
            Stage::Degrading => match event {
                StartupEvent::DirCreated(_) => progress.at(Stage::Failed),
                other => progress.ignore(Stage::Degrading, other),
            },
            Stage::Ready => progress.ignore(Stage::Ready, event),
            Stage::Failed => progress.ignore(Stage::Failed, event),
            Stage::Stopped => progress.ignore(Stage::Stopped, event),
        }
    }

    /// The state after the host's shutdown, and the process that the caller
    /// must terminate, if any.
    pub fn stop(self) -> (result: (BootstrapOrchestrator<H>, Option<H>))
        ensures
            (result.0@, result.1) == spec_stop(self@),
    {
        let BootstrapOrchestrator { stage, progress } = self;
        match stage {
            Stage::Ready | Stage::Failed | Stage::Stopped => {
                let mut progress = progress;
                let victim = progress.process.kill_if_present();
                (BootstrapOrchestrator { stage: Stage::Stopped, progress }, victim)
            },
            other => (BootstrapOrchestrator { stage: other, progress }, None),
        }
    }
}

impl<H> OrchestratorView<H> {
    /// What holds of every state that the orchestrator reaches: a process is
    /// held exactly while the backend is probed or ready, and then its
    /// address is that of the reserved port; after a failure the error is
    /// kept and the address is that of the stand-in; before a failure there
    /// is no error; a machine that is at work has a question to ask; and
    /// while the start is under way, and once it is ready, the database file
    /// has an absolute path.
    pub open spec fn wf(self) -> bool {
        &&& (self.process.handle is Some) <==> (self.stage is Probing || self.stage is Ready)
        &&& self.process.logs_dir == spec_logs_dir(self.process.data_dir)
        &&& self.process.handle is Some ==> self.process.api_base == spec_api_base(self.port)
        &&& self.stage is Degrading || self.stage is Failed ==> self.error is Some
            && self.process.api_base == spec_api_base(0)
        &&& spec_lifecycle(self.stage) == Lifecycle::Ready || (spec_lifecycle(self.stage)
            == Lifecycle::Starting && !(self.stage is Degrading)) || self.stage is NotStarted
            ==> self.error is None
        &&& self.stage is NotStarted ==> self.process == spec_degraded::<H>(
            spec_fallback_data_dir(),
        )
        &&& spec_lifecycle(self.stage) == Lifecycle::Ready || (spec_lifecycle(self.stage)
            == Lifecycle::Starting && !(self.stage is Degrading)) ==> spec_anchor_failure(
            self.inputs.working_dir,
            self.process.data_dir,
        ) is None
        &&& self.stage matches StageView::Locating(l) ==> !(locator::spec_action(l) is Done)
        &&& self.stage matches StageView::ResolvingLegacyDb(l) ==> !(legacy::spec_action(l)
            is Done)
        &&& self.stage matches StageView::Probing(p) ==> p.wf() && !(health::spec_action(p)
            is Done) && p.api_base == self.process.api_base && p.max_wait_ms
            == READINESS_LIMIT_MS
    }
}

/// The processes among two optional ones.
pub open spec fn spec_handles<H>(first: Option<H>, second: Option<H>) -> Multiset<H> {
    let one = match first {
        Some(handle) => Multiset::singleton(handle),
        None => Multiset::empty(),
    };
    let other = match second {
        Some(handle) => Multiset::singleton(handle),
        None => Multiset::empty(),
    };
    one.add(other)
}

/// Whether the host may see `after` directly after `before`.
pub open spec fn spec_may_follow(before: Lifecycle, after: Lifecycle) -> bool {
    ||| after == before
    ||| before == Lifecycle::NotStarted && after == Lifecycle::Starting
    ||| before == Lifecycle::Starting && after == Lifecycle::Ready
    ||| before == Lifecycle::Starting && after == Lifecycle::Failed
    ||| before == Lifecycle::Ready && after == Lifecycle::Stopped
    ||| before == Lifecycle::Failed && after == Lifecycle::Stopped
}

/// The orchestrator is well formed before the start.
pub proof fn lemma_new_wf<H>(inputs: StartupInputsView)
    ensures
        spec_new::<H>(inputs).wf(),
{
}

/// Every event leaves a well-formed orchestrator well formed.
pub proof fn lemma_step_wf<H>(o: OrchestratorView<H>, event: StartupEventView<H>)
    requires
        o.wf(),
    ensures
        spec_step(o, event).0.wf(),
{
    match o.stage {
        StageView::Probing(p) => {
            health::lemma_step_wf(p, ProbeEvent::Woke);
            if let StartupEventView::Response(status) = event {
                health::lemma_step_wf(p, ProbeEvent::Response(status));
            }
        },
        StageView::Spawning => {
            health::lemma_new_wf(spec_api_base(o.port), READINESS_LIMIT_MS as nat);
        },
        _ => {},
    }
}

/// The state after each of `events` in turn.
pub open spec fn spec_after<H>(
    o: OrchestratorView<H>,
    events: Seq<StartupEventView<H>>,
) -> OrchestratorView<H>
    decreases events.len(),
{
    if events.len() == 0 {
        o
    } else {
        spec_after(spec_step(o, events[0]).0, events.drop_first())
    }
}

/// Whatever events follow, a well-formed orchestrator stays well formed.
pub proof fn lemma_after_wf<H>(o: OrchestratorView<H>, events: Seq<StartupEventView<H>>)
    requires
        o.wf(),
    ensures
        spec_after(o, events).wf(),
    decreases events.len(),
{
    if events.len() > 0 {
        lemma_step_wf(o, events[0]);
        lemma_after_wf(spec_step(o, events[0]).0, events.drop_first());
    }
}

/// Every state that the orchestrator reaches from its first one is well
/// formed, whatever the host reports.
pub proof fn lemma_reached_is_wf<H>(inputs: StartupInputsView, events: Seq<StartupEventView<H>>)
    ensures
        spec_after(spec_new::<H>(inputs), events).wf(),
{
    lemma_new_wf::<H>(inputs);
    lemma_after_wf(spec_new::<H>(inputs), events);
}

/// The backend is launched with its database named by an absolute path: the
/// file inside the data directory, seen from the host's working directory
/// where the data directory does not begin at the root.
pub proof fn lemma_launch_names_absolute_database<H>(o: OrchestratorView<H>)
    requires
        o.wf(),
        o.stage is Spawning,
    ensures
        spec_action(o) is Spawn,
        spec_action(o)->Spawn_0.env.len() == 5,
        spec_action(o)->Spawn_0.env[3].name == "DATABASE_URL"@,
        spec_action(o)->Spawn_0.env[3].value == "sqlite:///"@ + spec_database_file(
            spec_working_dir(o.inputs.working_dir),
            o.process.data_dir,
        ),
        spec_is_absolute(
            spec_database_file(spec_working_dir(o.inputs.working_dir), o.process.data_dir),
        ),
{
    crate::paths::lemma_database_url_is_absolute(o.inputs.working_dir, o.process.data_dir);
}

/// The backend's output goes to the two files that the start opened: the
/// first one takes standard output, the second one standard error.
pub proof fn lemma_launch_names_opened_logs<H>(o: OrchestratorView<H>)
    ensures
        spec_action(OrchestratorView { stage: StageView::Spawning, ..o }) is Spawn,
        spec_action(OrchestratorView { stage: StageView::OpeningStdoutLog, ..o })
            == StartupActionView::OpenLog(
            spec_action(OrchestratorView { stage: StageView::Spawning, ..o })->Spawn_0.stdout_log,
        ),
        spec_action(OrchestratorView { stage: StageView::OpeningStderrLog, ..o })
            == StartupActionView::OpenLog(
            spec_action(OrchestratorView { stage: StageView::Spawning, ..o })->Spawn_0.stderr_log,
        ),
{
}

/// Stopping leaves a well-formed orchestrator well formed.
pub proof fn lemma_stop_wf<H>(o: OrchestratorView<H>)
    requires
        o.wf(),
    ensures
        spec_stop(o).0.wf(),
{
}

/// A well-formed orchestrator has a question for the host until the start is
/// over.
pub proof fn lemma_asks_until_over<H>(o: OrchestratorView<H>)
    requires
        o.wf(),
    ensures
        spec_action(o) is Finished <==> (spec_lifecycle(o.stage) == Lifecycle::Ready
            || spec_lifecycle(o.stage) == Lifecycle::Failed || spec_lifecycle(o.stage)
            == Lifecycle::Stopped),
        spec_action(o) is AwaitBegin <==> spec_lifecycle(o.stage) == Lifecycle::NotStarted,
{
}

/// The host sees the start begin, then end ready or failed, and either end
/// followed by the stop: no event and no stop takes any other way.
pub proof fn lemma_lifecycle_order<H>(o: OrchestratorView<H>, event: StartupEventView<H>)
    ensures
        spec_may_follow(spec_lifecycle(o.stage), spec_lifecycle(spec_step(o, event).0.stage)),
        spec_lifecycle(spec_step(o, event).0.stage) != Lifecycle::Stopped || spec_lifecycle(
            o.stage,
        ) == Lifecycle::Stopped,
        spec_may_follow(spec_lifecycle(o.stage), spec_lifecycle(spec_stop(o).0.stage)),
        spec_lifecycle(o.stage) == Lifecycle::Ready || spec_lifecycle(o.stage)
            == Lifecycle::Failed ==> spec_lifecycle(spec_stop(o).0.stage) == Lifecycle::Stopped,
{
}

/// No process is lost: what is held after an event, together with what is
/// handed out, is what was held before, together with what the event
/// brought.
pub proof fn lemma_no_process_lost<H>(o: OrchestratorView<H>, event: StartupEventView<H>)
    ensures
        spec_handles(spec_step(o, event).0.process.handle, spec_step(o, event).1) == spec_handles(
            o.process.handle,
            spec_event_handle(event),
        ),
        spec_handles(spec_stop(o).0.process.handle, spec_stop(o).1) == spec_handles(
            o.process.handle,
            None,
        ),
{
    let next = spec_step(o, event);
    assert(spec_handles(next.0.process.handle, next.1) =~= spec_handles(
        o.process.handle,
        spec_event_handle(event),
    ));
    assert(spec_handles(spec_stop(o).0.process.handle, spec_stop(o).1) =~= spec_handles(
        o.process.handle,
        None,
    ));
}

/// The probe event that `event` is, if it is one.
pub open spec fn spec_probe_event<H>(event: StartupEventView<H>) -> Option<ProbeEvent> {
    match event {
        StartupEventView::Response(status) => Some(ProbeEvent::Response(status)),
        StartupEventView::Woke => Some(ProbeEvent::Woke),
        _ => None,
    }
}

/// When the prober gives up, the backend is handed out to be terminated at
/// once, the start fails for that reason, and the host is left with the
/// stand-in.
pub proof fn lemma_unready_backend_is_terminated<H>(
    o: OrchestratorView<H>,
    event: StartupEventView<H>,
)
    requires
        o.wf(),
        o.stage is Probing,
        spec_probe_event(event) is Some,
        health::spec_action(health::spec_step(o.stage->Probing_0, spec_probe_event(event)->0))
            == ProbeActionView::Done(false),
    ensures
        spec_step(o, event).1 == o.process.handle,
        spec_step(o, event).1 is Some,
        spec_step(o, event).0.process == spec_degraded::<H>(o.process.data_dir),
        spec_step(o, event).0.error == Some(BootstrapErrorView::ReadinessTimeout),
        spec_step(o, event).0.stage is Degrading,
        spec_lifecycle(
            spec_step(spec_step(o, event).0, StartupEventView::DirCreated(Ok(()))).0.stage,
        ) == Lifecycle::Failed,
{
}

/// When the prober reports ready, the start is over: the backend is kept,
/// and its address is that of the port that was reserved.
pub proof fn lemma_ready_backend_is_kept<H>(o: OrchestratorView<H>, event: StartupEventView<H>)
    requires
        o.wf(),
        o.stage is Probing,
        spec_probe_event(event) is Some,
        health::spec_action(health::spec_step(o.stage->Probing_0, spec_probe_event(event)->0))
            == ProbeActionView::Done(true),
    ensures
        spec_step(o, event).1 is None,
        spec_step(o, event).0.stage is Ready,
        spec_step(o, event).0.process == o.process,
        spec_step(o, event).0.process.handle is Some,
        spec_step(o, event).0.process.api_base == spec_api_base(o.port),
        spec_step(o, event).0.error is None,
{
}

/// Stopping twice is stopping once: the first stop hands out the process, if
/// one is held, and clears it; the second hands out nothing and changes
/// nothing.
pub proof fn lemma_stop_twice<H>(o: OrchestratorView<H>)
    ensures
        spec_stop(o).1 is Some ==> spec_stop(o).1 == o.process.handle && spec_stop(
            o,
        ).0.process.handle is None,
        spec_stop(spec_stop(o).0) == (spec_stop(o).0, None::<H>),
{
}

} // verus!
