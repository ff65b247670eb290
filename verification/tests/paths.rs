use backend_supervisor::error::{BootstrapError, HostResource};
use backend_supervisor::paths::{
    absolute, anchor_failure, api_base, child, database_url, health_url, is_absolute, join,
    logs_dir, resolve_seekjob_data_dir, stderr_log, stdout_log, working_dir_text, ResolvedPaths,
    BACKEND_BIN_NAME,
};

#[test]
fn join_puts_one_separator_between() {
    assert_eq!(join("/opt/app", "seekjob-backend"), "/opt/app/seekjob-backend");
    assert_eq!(join("/opt/app/", "seekjob-backend"), "/opt/app/seekjob-backend");
    assert_eq!(join("rel", "a/b"), "rel/a/b");
    assert_eq!(join("/", "x"), "/x");
}

#[test]
fn join_with_empty_parts() {
    assert_eq!(join("", "x"), "x");
    assert_eq!(join("/opt/app", ""), "/opt/app/");
    assert_eq!(join("", ""), "");
}

#[test]
fn join_lets_an_absolute_path_replace_the_base() {
    assert_eq!(join("/opt/app", "/usr/bin/python3"), "/usr/bin/python3");
}

#[test]
fn join_agrees_with_std_paths() {
    let cases = [
        ("/opt/app", "seekjob-backend"),
        ("/opt/app/", "backend/dist/seekjob-backend"),
        ("", "x"),
        ("/opt/app", ""),
        ("/opt/app", "/abs"),
        (".", "logs"),
        ("/Users/me", "Application Support"),
    ];
    for (base, rel) in cases {
        let expected = std::path::Path::new(base).join(rel);
        assert_eq!(join(base, rel), expected.to_string_lossy());
    }
}

#[test]
fn api_base_has_the_derived_format() {
    assert_eq!(api_base(8080), "http://127.0.0.1:8080/api");
    assert_eq!(api_base(0), "http://127.0.0.1:0/api");
    assert_eq!(api_base(65535), "http://127.0.0.1:65535/api");
}

#[test]
fn health_url_appends_the_endpoint() {
    assert_eq!(health_url("http://127.0.0.1:8080/api"), "http://127.0.0.1:8080/api/health");
}

#[test]
fn database_url_of_an_absolute_data_dir() {
    assert_eq!(database_url("/w", "/data"), "sqlite:////data/app.db");
    assert_eq!(database_url("", "/data/"), "sqlite:////data/app.db");
    assert_eq!(
        database_url("/w", "/Users/me/Library/Application Support/SeekJob"),
        "sqlite:////Users/me/Library/Application Support/SeekJob/app.db"
    );
}

#[test]
fn database_url_of_a_relative_data_dir_starts_at_the_working_dir() {
    assert_eq!(database_url("/w", "rel/data"), "sqlite:////w/rel/data/app.db");
    assert_eq!(database_url("/w/", "rel/data"), "sqlite:////w/rel/data/app.db");
    assert_eq!(database_url("/", "data"), "sqlite:////data/app.db");
    assert_eq!(database_url("/w", "."), "sqlite:////w/./app.db");
}

#[test]
fn absolute_leaves_rooted_paths_alone() {
    assert_eq!(absolute("/w", "/data"), "/data");
    assert_eq!(absolute("/w", "rel/data"), "/w/rel/data");
    assert_eq!(absolute("/w/", "rel"), "/w/rel");
    assert_eq!(absolute("/w", ""), "/w/");
    assert!(is_absolute("/"));
    assert!(is_absolute("/data"));
    assert!(!is_absolute(""));
    assert!(!is_absolute("rel/data"));
    assert!(!is_absolute("./data"));
}

#[test]
fn child_always_appends() {
    assert_eq!(child("/res", "seekjob-backend"), "/res/seekjob-backend");
    assert_eq!(child("/res/", "seekjob-backend"), "/res/seekjob-backend");
    assert_eq!(child("", "x"), "x");
    assert_eq!(child("/res", "/etc/passwd"), "/res//etc/passwd");
    assert_eq!(child("/res", ""), "/res/");
}

#[test]
fn anchor_is_needed_for_relative_data_dirs_only() {
    let unknown: Result<String, String> = Err("no such directory".to_string());
    let known: Result<String, String> = Ok("/w".to_string());
    let odd: Result<String, String> = Ok("w".to_string());
    assert_eq!(anchor_failure(&known, "rel/data"), None);
    assert_eq!(anchor_failure(&known, "/data"), None);
    assert_eq!(anchor_failure(&unknown, "/data"), None);
    assert_eq!(anchor_failure(&odd, "/data"), None);
    assert_eq!(
        anchor_failure(&unknown, "rel/data"),
        Some(BootstrapError::Host {
            resource: HostResource::WorkingDir,
            detail: "no such directory".to_string()
        })
    );
    assert_eq!(
        anchor_failure(&odd, "rel/data"),
        Some(BootstrapError::Host {
            resource: HostResource::WorkingDir,
            detail: "not an absolute path: w".to_string()
        })
    );
    assert_eq!(
        anchor_failure(&unknown, "").unwrap().message(),
        "Cannot resolve working dir: no such directory"
    );
    assert_eq!(working_dir_text(&known), "/w");
    assert_eq!(working_dir_text(&unknown), "");
}

#[test]
fn log_files_lie_in_the_logs_dir() {
    assert_eq!(logs_dir("/data"), "/data/logs");
    assert_eq!(stdout_log("/data/logs"), "/data/logs/backend.stdout.log");
    assert_eq!(stderr_log("/data/logs"), "/data/logs/backend.stderr.log");
    let paths = ResolvedPaths::under("/data".to_string());
    assert_eq!(paths.data_dir, "/data");
    assert_eq!(paths.logs_dir, "/data/logs");
}

#[test]
fn bin_name_is_fixed() {
    assert_eq!(BACKEND_BIN_NAME, "seekjob-backend");
}

#[test]
fn data_dir_override_wins() {
    let resolved = resolve_seekjob_data_dir(
        Some("  /custom/data \n"),
        Some("/Users/me"),
        Ok("/host/data".to_string()),
    );
    assert_eq!(resolved, Ok("/custom/data".to_string()));
}

#[test]
fn data_dir_blank_override_falls_to_home() {
    let resolved =
        resolve_seekjob_data_dir(Some("   "), Some(" /Users/me "), Ok("/host/data".to_string()));
    assert_eq!(resolved, Ok("/Users/me/Library/Application Support/SeekJob".to_string()));
}

#[test]
fn data_dir_without_variables_is_the_hosts() {
    assert_eq!(
        resolve_seekjob_data_dir(None, None, Ok("/host/data".to_string())),
        Ok("/host/data".to_string())
    );
    assert_eq!(
        resolve_seekjob_data_dir(Some(""), Some("\t"), Ok("/host/data".to_string())),
        Ok("/host/data".to_string())
    );
}

#[test]
fn data_dir_fails_with_the_hosts_failure() {
    let resolved = resolve_seekjob_data_dir(None, None, Err("no app dir".to_string()));
    assert_eq!(
        resolved,
        Err(BootstrapError::Host {
            resource: HostResource::AppDataDir,
            detail: "no app dir".to_string()
        })
    );
    assert_eq!(resolved.unwrap_err().message(), "Cannot resolve app data dir: no app dir");
}

#[test]
fn data_dir_host_failure_is_not_consulted_when_home_is_set() {
    let resolved = resolve_seekjob_data_dir(None, Some("/home/u"), Err("no app dir".to_string()));
    assert_eq!(resolved, Ok("/home/u/Library/Application Support/SeekJob".to_string()));
}
