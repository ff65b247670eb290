use backend_supervisor::error::{BootstrapError, HostResource, IoTarget, PortStage};

#[test]
fn allocation_messages() {
    let bind = BootstrapError::Allocation { stage: PortStage::Bind, detail: "in use".to_string() };
    assert_eq!(bind.message(), "Cannot reserve local port: in use");
    let read = BootstrapError::Allocation {
        stage: PortStage::ReadBack,
        detail: "closed".to_string(),
    };
    assert_eq!(read.message(), "Cannot read reserved port: closed");
}

#[test]
fn not_found_message_names_directory_and_file() {
    let error = BootstrapError::NotFound {
        resource_dir: "/opt/app/resources".to_string(),
        file_name: "seekjob-backend".to_string(),
    };
    assert_eq!(
        error.message(),
        "Embedded backend binary not found under /opt/app/resources. Expected file name: seekjob-backend"
    );
}

#[test]
fn io_messages() {
    let cases = [
        (IoTarget::DataDir, "Cannot create app data dir: denied"),
        (IoTarget::LogsDir, "Cannot create logs dir: denied"),
        (IoTarget::StdoutLog, "Cannot open backend stdout log: denied"),
        (IoTarget::StderrLog, "Cannot open backend stderr log: denied"),
    ];
    for (target, expected) in cases {
        let error = BootstrapError::Io { target, detail: "denied".to_string() };
        assert_eq!(error.message(), expected);
    }
}

#[test]
fn spawn_message_names_the_program() {
    let error = BootstrapError::Spawn {
        program: "/opt/app/seekjob-backend".to_string(),
        detail: "permission denied".to_string(),
    };
    assert_eq!(
        error.message(),
        "Cannot spawn backend process (/opt/app/seekjob-backend): permission denied"
    );
}

#[test]
fn readiness_timeout_message() {
    assert_eq!(
        BootstrapError::ReadinessTimeout.message(),
        "Backend process started but /api/health did not become ready in time"
    );
}

#[test]
fn host_messages() {
    let resources = BootstrapError::Host {
        resource: HostResource::ResourceDir,
        detail: "unknown path".to_string(),
    };
    assert_eq!(resources.message(), "Cannot resolve Tauri resources dir: unknown path");
    let data = BootstrapError::Host {
        resource: HostResource::AppDataDir,
        detail: "unknown path".to_string(),
    };
    assert_eq!(data.message(), "Cannot resolve app data dir: unknown path");
    let working = BootstrapError::Host {
        resource: HostResource::WorkingDir,
        detail: "unknown path".to_string(),
    };
    assert_eq!(working.message(), "Cannot resolve working dir: unknown path");
}

#[test]
fn duplicate_is_equal() {
    let errors = [
        BootstrapError::Allocation { stage: PortStage::Bind, detail: "x".to_string() },
        BootstrapError::NotFound { resource_dir: "r".to_string(), file_name: "f".to_string() },
        BootstrapError::Io { target: IoTarget::LogsDir, detail: "y".to_string() },
        BootstrapError::Spawn { program: "p".to_string(), detail: "z".to_string() },
        BootstrapError::ReadinessTimeout,
        BootstrapError::Host { resource: HostResource::ResourceDir, detail: "w".to_string() },
    ];
    for error in errors {
        assert_eq!(error.duplicate(), error);
    }
}
