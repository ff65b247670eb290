//! Launching the backend and holding on to its process.
//!
//! The library never holds more than one reference to the operating system's
//! process, and gives it away exactly once, to whoever is to terminate it.

use crate::legacy::LEGACY_DB_VAR;
use crate::locator::{spec_texts, BackendCommand, BackendCommandView};
use crate::paths::{
    api_base, database_url, logs_dir, spec_api_base, spec_database_url, spec_logs_dir,
    spec_stderr_log, spec_stdout_log, stderr_log, stdout_log, ResolvedPaths, ResolvedPathsView,
};
use crate::text::{decimal, spec_decimal};
use vstd::prelude::*;
use vstd::string::*;

verus! {

/// One variable of the backend's environment.
#[derive(Clone, Debug, PartialEq, Eq)]
pub struct EnvVar {
    pub name: String,
    pub value: String,
}

/// An `EnvVar` as a mathematical value.
pub ghost struct EnvVarView {
    pub name: Seq<char>,
    pub value: Seq<char>,
}

impl View for EnvVar {
    type V = EnvVarView;

    open spec fn view(&self) -> EnvVarView {
        EnvVarView { name: self.name@, value: self.value@ }
    }
}

/// The views of a sequence of variables.
pub open spec fn spec_env_views(env: Seq<EnvVar>) -> Seq<EnvVarView> {
    Seq::new(env.len(), |i: int| env[i]@)
}

/// How to launch the backend: the program, its arguments, the variables to
/// set on top of the host's own environment, and the two files to which its
/// output is appended.
#[derive(Clone, Debug, PartialEq, Eq)]
pub struct LaunchPlan {
    pub program: String,
    pub args: Vec<String>,
    pub env: Vec<EnvVar>,
    /// The file that receives the backend's standard output.
    pub stdout_log: String,
    /// The file that receives the backend's standard error.
    pub stderr_log: String,
}

/// A `LaunchPlan` as a mathematical value.
pub ghost struct LaunchPlanView {
    pub program: Seq<char>,
    pub args: Seq<Seq<char>>,
    pub env: Seq<EnvVarView>,
    pub stdout_log: Seq<char>,
    pub stderr_log: Seq<char>,
}

impl View for LaunchPlan {
    type V = LaunchPlanView;

    open spec fn view(&self) -> LaunchPlanView {
        LaunchPlanView {
            program: self.program@,
            args: spec_texts(self.args@),
            env: spec_env_views(self.env@),
            stdout_log: self.stdout_log@,
            stderr_log: self.stderr_log@,
        }
    }
}

/// The variables that tell the backend its port, under both names, its data
/// directory, its database by the absolute path of the file, and the
/// database of an earlier installation.
pub open spec fn spec_child_env(
    port: u16,
    working_dir: Seq<char>,
    data_dir: Seq<char>,
    legacy_db_path: Seq<char>,
) -> Seq<EnvVarView> {
    seq![
        EnvVarView { name: "SEEKJOB_PORT"@, value: spec_decimal(port as nat) },
        EnvVarView { name: "PORT"@, value: spec_decimal(port as nat) },
        EnvVarView { name: "SEEKJOB_DATA_DIR"@, value: data_dir },
        EnvVarView { name: "DATABASE_URL"@, value: spec_database_url(working_dir, data_dir) },
        EnvVarView { name: LEGACY_DB_VAR@, value: legacy_db_path },
    ]
}

/// The plan that launches `command` on `port` with the data directory and
/// the logs directory of `paths`, from a host that works in `working_dir`.
pub open spec fn spec_launch_plan(
    command: BackendCommandView,
    port: u16,
    working_dir: Seq<char>,
    paths: ResolvedPathsView,
    legacy_db_path: Seq<char>,
) -> LaunchPlanView {
    LaunchPlanView {
        program: command.program,
        args: command.args,
        env: spec_child_env(port, working_dir, paths.data_dir, legacy_db_path),
        stdout_log: spec_stdout_log(paths.logs_dir),
        stderr_log: spec_stderr_log(paths.logs_dir),
    }
}

/// The variable `name` with `value`.
fn env_var(name: &str, value: String) -> (var: EnvVar)
    ensures
        var@ == (EnvVarView { name: name@, value: value@ }),
{
    EnvVar { name: name.to_owned(), value }
}

/// The plan that launches `command` on `port` with the data directory and
/// the logs directory of `paths`, from a host that works in `working_dir`.
pub fn launch_plan(
    command: &BackendCommand,
    port: u16,
    working_dir: &str,
    paths: &ResolvedPaths,
    legacy_db_path: &str,
) -> (plan: LaunchPlan)
    ensures
        plan@ == spec_launch_plan(command@, port, working_dir@, paths@, legacy_db_path@),
{
    let copy = command.duplicate();
    let data_dir = paths.data_dir.as_str();
    let mut env: Vec<EnvVar> = Vec::new();
    env.push(env_var("SEEKJOB_PORT", decimal(port as u64)));
    env.push(env_var("PORT", decimal(port as u64)));
    env.push(env_var("SEEKJOB_DATA_DIR", data_dir.to_owned()));
    env.push(env_var("DATABASE_URL", database_url(working_dir, data_dir)));
    env.push(env_var(LEGACY_DB_VAR, legacy_db_path.to_owned()));
    assert(spec_env_views(env@) =~= spec_child_env(
        port,
        working_dir@,
        paths@.data_dir,
        legacy_db_path@,
    ));
    LaunchPlan {
        program: copy.program,
        args: copy.args,
        env,
        stdout_log: stdout_log(paths.logs_dir.as_str()),
        stderr_log: stderr_log(paths.logs_dir.as_str()),
    }
}

/// The backend as the host sees it: where its API is served, where it keeps
/// its data and logs, and the process itself while it is held.
pub struct SupervisedProcess<H> {
    handle: Option<H>,
    api_base: String,
    data_dir: String,
    logs_dir: String,
}

/// A `SupervisedProcess` as a mathematical value.
pub ghost struct SupervisedProcessView<H> {
    pub handle: Option<H>,
    pub api_base: Seq<char>,
    pub data_dir: Seq<char>,
    pub logs_dir: Seq<char>,
}

impl<H> View for SupervisedProcess<H> {
    type V = SupervisedProcessView<H>;

    closed spec fn view(&self) -> SupervisedProcessView<H> {
        SupervisedProcessView {
            handle: self.handle,
            api_base: self.api_base@,
            data_dir: self.data_dir@,
            logs_dir: self.logs_dir@,
        }
    }
}

/// A backend that runs as `handle` and listens on `port`.
pub open spec fn spec_running<H>(handle: H, port: u16, data_dir: Seq<char>) -> SupervisedProcessView<
    H,
> {
    SupervisedProcessView {
        handle: Some(handle),
        api_base: spec_api_base(port),
        data_dir,
        logs_dir: spec_logs_dir(data_dir),
    }
}

/// The stand-in for a backend that could not be brought up: no process, and
/// an address at which nothing listens.
pub open spec fn spec_degraded<H>(data_dir: Seq<char>) -> SupervisedProcessView<H> {
    SupervisedProcessView {
        handle: None,
        api_base: spec_api_base(0),
        data_dir,
        logs_dir: spec_logs_dir(data_dir),
    }
}

/// The backend after its process was given up, and the process to terminate
/// if one was held.
pub open spec fn spec_kill<H>(process: SupervisedProcessView<H>) -> (
    SupervisedProcessView<H>,
    Option<H>,
) {
    (SupervisedProcessView { handle: None, ..process }, process.handle)
}

impl<H> SupervisedProcess<H> {
    /// A backend that runs as `handle` and listens on `port`.
    pub fn running(handle: H, port: u16, data_dir: String) -> (process: SupervisedProcess<H>)
        ensures
            process@ == spec_running(handle, port, data_dir@),
    {
        let logs = logs_dir(data_dir.as_str());
        SupervisedProcess {
            handle: Some(handle),
            api_base: api_base(port),
            data_dir,
            logs_dir: logs,
        }
    }

    /// The stand-in for a backend that could not be brought up.
    pub fn degraded(data_dir: String) -> (process: SupervisedProcess<H>)
        ensures
            process@ == spec_degraded::<H>(data_dir@),
    {
        let logs = logs_dir(data_dir.as_str());
        SupervisedProcess { handle: None, api_base: api_base(0), data_dir, logs_dir: logs }
    }

    /// The address at which the backend's API is served.
    pub fn api_base(&self) -> (address: String)
        ensures
            address@ == self@.api_base,
    {
        self.api_base.clone()
    }

    /// The directory in which the backend keeps its data.
    pub fn data_dir(&self) -> (dir: String)
        ensures
            dir@ == self@.data_dir,
    {
        self.data_dir.clone()
    }

    /// The directory in which the backend's logs are kept.
    pub fn logs_dir(&self) -> (dir: String)
        ensures
            dir@ == self@.logs_dir,
    {
        self.logs_dir.clone()
    }

    /// The directories that the backend works in.
    pub fn app_paths(&self) -> (paths: ResolvedPaths)
        ensures
            paths@ == (ResolvedPathsView { data_dir: self@.data_dir, logs_dir: self@.logs_dir }),
    {
        ResolvedPaths { data_dir: self.data_dir.clone(), logs_dir: self.logs_dir.clone() }
    }

    /// Whether a process is held.
    pub fn is_running(&self) -> (held: bool)
        ensures
            held == self@.handle is Some,
    {
        self.handle.is_some()
    }

    /// Gives up the process, if one is held, to be terminated by the caller.
    /// Afterwards none is held, so a second call hands out nothing.
    pub fn kill_if_present(&mut self) -> (victim: Option<H>)
        ensures
            (final(self)@, victim) == spec_kill(old(self)@),
    {
        self.handle.take()
    }
}

/// Giving up the process twice is giving it up once: the first call hands it
/// out and clears it, the second finds nothing and changes nothing.
pub proof fn lemma_kill_twice<H>(process: SupervisedProcessView<H>)
    ensures
        spec_kill(process).0.handle is None,
        spec_kill(process).1 == process.handle,
        spec_kill(spec_kill(process).0) == (spec_kill(process).0, None::<H>),
{
}

} // verus!
