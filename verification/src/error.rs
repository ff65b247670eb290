//! The ways in which bringing the backend up can fail.

use vstd::prelude::*;
use vstd::string::*;

verus! {

/// The step of reserving a port that failed.
#[derive(Clone, Copy, Debug, PartialEq, Eq, Structural)]
pub enum PortStage {
    /// Binding a loopback socket to an ephemeral port.
    Bind,
    /// Reading the assigned port number back from the bound socket.
    ReadBack,
}

/// What could not be created or opened.
#[derive(Clone, Copy, Debug, PartialEq, Eq, Structural)]
pub enum IoTarget {
    DataDir,
    LogsDir,
    StdoutLog,
    StderrLog,
}

/// The directory that the host could not name.
#[derive(Clone, Copy, Debug, PartialEq, Eq, Structural)]
pub enum HostResource {
    ResourceDir,
    AppDataDir,
    WorkingDir,
}

/// Why the backend could not be brought up. `detail` is the outside
/// failure's own text.
#[derive(Clone, Debug, PartialEq, Eq)]
pub enum BootstrapError {
    /// No port could be reserved.
    Allocation { stage: PortStage, detail: String },
    /// No backend executable was found.
    NotFound { resource_dir: String, file_name: String },
    /// A directory or a log file could not be created.
    Io { target: IoTarget, detail: String },
    /// The executable could not be launched.
    Spawn { program: String, detail: String },
    /// The process was launched but never reported ready.
    ReadinessTimeout,
    /// The host could not name one of its directories.
    Host { resource: HostResource, detail: String },
}

/// A `BootstrapError` as a mathematical value.
pub ghost enum BootstrapErrorView {
    Allocation { stage: PortStage, detail: Seq<char> },
    NotFound { resource_dir: Seq<char>, file_name: Seq<char> },
    Io { target: IoTarget, detail: Seq<char> },
    Spawn { program: Seq<char>, detail: Seq<char> },
    ReadinessTimeout,
    Host { resource: HostResource, detail: Seq<char> },
}

impl View for BootstrapError {
    type V = BootstrapErrorView;

    open spec fn view(&self) -> BootstrapErrorView {
        match *self {
            BootstrapError::Allocation { stage, detail } => BootstrapErrorView::Allocation {
                stage,
                detail: detail@,
            },
            BootstrapError::NotFound { resource_dir, file_name } => BootstrapErrorView::NotFound {
                resource_dir: resource_dir@,
                file_name: file_name@,
            },
            BootstrapError::Io { target, detail } => BootstrapErrorView::Io {
                target,
                detail: detail@,
            },
            BootstrapError::Spawn { program, detail } => BootstrapErrorView::Spawn {
                program: program@,
                detail: detail@,
            },
            BootstrapError::ReadinessTimeout => BootstrapErrorView::ReadinessTimeout,
            BootstrapError::Host { resource, detail } => BootstrapErrorView::Host {
                resource,
                detail: detail@,
            },
        }
    }
}

/// An optional error as a mathematical value.
pub open spec fn spec_opt_error(error: Option<BootstrapError>) -> Option<BootstrapErrorView> {
    match error {
        Some(e) => Some(e@),
        None => None,
    }
}

/// What the host said of one of its directories, as a mathematical value.
pub open spec fn spec_answer_view(answer: Result<String, String>) -> Result<Seq<char>, Seq<char>> {
    match answer {
        Ok(dir) => Ok(dir@),
        Err(detail) => Err(detail@),
    }
}

/// What precedes the detail in the message of an allocation failure.
pub open spec fn spec_allocation_prefix(stage: PortStage) -> Seq<char> {
    match stage {
        PortStage::Bind => "Cannot reserve local port: "@,
        PortStage::ReadBack => "Cannot read reserved port: "@,
    }
}

/// What precedes the detail in the message of an I/O failure.
pub open spec fn spec_io_prefix(target: IoTarget) -> Seq<char> {
    match target {
        IoTarget::DataDir => "Cannot create app data dir: "@,
        IoTarget::LogsDir => "Cannot create logs dir: "@,
        IoTarget::StdoutLog => "Cannot open backend stdout log: "@,
        IoTarget::StderrLog => "Cannot open backend stderr log: "@,
    }
}

/// What precedes the detail in the message of a host failure.
pub open spec fn spec_host_prefix(resource: HostResource) -> Seq<char> {
    match resource {
        HostResource::ResourceDir => "Cannot resolve Tauri resources dir: "@,
        HostResource::AppDataDir => "Cannot resolve app data dir: "@,
        HostResource::WorkingDir => "Cannot resolve working dir: "@,
    }
}

impl BootstrapErrorView {
    /// The message shown for the error.
    pub open spec fn message(self) -> Seq<char> {
        match self {
            BootstrapErrorView::Allocation { stage, detail } => spec_allocation_prefix(stage)
                + detail,
            BootstrapErrorView::NotFound { resource_dir, file_name } =>
                "Embedded backend binary not found under "@ + resource_dir
                + ". Expected file name: "@ + file_name,
            BootstrapErrorView::Io { target, detail } => spec_io_prefix(target) + detail,
            BootstrapErrorView::Spawn { program, detail } => "Cannot spawn backend process ("@
                + program + "): "@ + detail,
            BootstrapErrorView::ReadinessTimeout =>
                "Backend process started but /api/health did not become ready in time"@,
            BootstrapErrorView::Host { resource, detail } => spec_host_prefix(resource) + detail,
        }
    }
}

fn allocation_prefix(stage: PortStage) -> (text: &'static str)
    ensures
        text@ == spec_allocation_prefix(stage),
{
    match stage {
        PortStage::Bind => "Cannot reserve local port: ",
        PortStage::ReadBack => "Cannot read reserved port: ",
    }
}

fn io_prefix(target: IoTarget) -> (text: &'static str)
    ensures
        text@ == spec_io_prefix(target),
{
    match target {
        IoTarget::DataDir => "Cannot create app data dir: ",
        IoTarget::LogsDir => "Cannot create logs dir: ",
        IoTarget::StdoutLog => "Cannot open backend stdout log: ",
        IoTarget::StderrLog => "Cannot open backend stderr log: ",
    }
}

fn host_prefix(resource: HostResource) -> (text: &'static str)
    ensures
        text@ == spec_host_prefix(resource),
{
    match resource {
        HostResource::ResourceDir => "Cannot resolve Tauri resources dir: ",
        HostResource::AppDataDir => "Cannot resolve app data dir: ",
        HostResource::WorkingDir => "Cannot resolve working dir: ",
    }
}

impl BootstrapError {
    /// The message shown for the error.
    pub fn message(&self) -> (text: String)
        ensures
            text@ == self@.message(),
    {
        match self {
            BootstrapError::Allocation { stage, detail } => {
                let mut text = allocation_prefix(*stage).to_owned();
                text.append(detail.as_str());
                text
            },
            BootstrapError::NotFound { resource_dir, file_name } => {
                let mut text = "Embedded backend binary not found under ".to_owned();
                text.append(resource_dir.as_str());
                text.append(". Expected file name: ");
                text.append(file_name.as_str());
                text
            },
            BootstrapError::Io { target, detail } => {
                let mut text = io_prefix(*target).to_owned();
                text.append(detail.as_str());
                text
            },
            BootstrapError::Spawn { program, detail } => {
                let mut text = "Cannot spawn backend process (".to_owned();
                text.append(program.as_str());
                text.append("): ");
                text.append(detail.as_str());
                text
            },
            BootstrapError::ReadinessTimeout => {
                "Backend process started but /api/health did not become ready in time".to_owned()
            },
            BootstrapError::Host { resource, detail } => {
                let mut text = host_prefix(*resource).to_owned();
                text.append(detail.as_str());
                text
            },
        }
    }

    /// A copy of the error.
    pub fn duplicate(&self) -> (copy: BootstrapError)
        ensures
            copy@ == self@,
    {
        match self {
            BootstrapError::Allocation { stage, detail } => BootstrapError::Allocation {
                stage: *stage,
                detail: detail.clone(),
            },
            BootstrapError::NotFound { resource_dir, file_name } => BootstrapError::NotFound {
                resource_dir: resource_dir.clone(),
                file_name: file_name.clone(),
            },
            BootstrapError::Io { target, detail } => BootstrapError::Io {
                target: *target,
                detail: detail.clone(),
            },
            BootstrapError::Spawn { program, detail } => BootstrapError::Spawn {
                program: program.clone(),
                detail: detail.clone(),
            },
            BootstrapError::ReadinessTimeout => BootstrapError::ReadinessTimeout,
            BootstrapError::Host { resource, detail } => BootstrapError::Host {
                resource: *resource,
                detail: detail.clone(),
            },
        }
    }
}

} // verus!
