use backend_supervisor::locator::BackendCommand;
use backend_supervisor::paths::ResolvedPaths;
use backend_supervisor::supervisor::{launch_plan, EnvVar, SupervisedProcess};

fn var(name: &str, value: &str) -> EnvVar {
    EnvVar { name: name.to_string(), value: value.to_string() }
}

#[test]
fn launch_plan_sets_the_five_variables() {
    let command = BackendCommand { program: "/opt/app/seekjob-backend".to_string(), args: vec![] };
    let paths = ResolvedPaths::under("/Users/me/data".to_string());
    let plan = launch_plan(&command, 51234, "/w", &paths, "/old/app.db");
    assert_eq!(plan.program, "/opt/app/seekjob-backend");
    assert!(plan.args.is_empty());
    assert_eq!(
        plan.env,
        vec![
            var("SEEKJOB_PORT", "51234"),
            var("PORT", "51234"),
            var("SEEKJOB_DATA_DIR", "/Users/me/data"),
            var("DATABASE_URL", "sqlite:////Users/me/data/app.db"),
            var("SEEKJOB_LEGACY_DB_PATH", "/old/app.db"),
        ]
    );
}

#[test]
fn launch_plan_names_the_database_by_its_absolute_path() {
    let command = BackendCommand {
        program: "/venv/bin/python".to_string(),
        args: vec!["/src/run.py".to_string()],
    };
    let paths = ResolvedPaths::under("rel/data".to_string());
    let plan = launch_plan(&command, 80, "/w", &paths, "");
    assert_eq!(plan.program, "/venv/bin/python");
    assert_eq!(plan.args, vec!["/src/run.py".to_string()]);
    assert_eq!(plan.env[0], var("SEEKJOB_PORT", "80"));
    assert_eq!(plan.env[2], var("SEEKJOB_DATA_DIR", "rel/data"));
    assert_eq!(plan.env[3], var("DATABASE_URL", "sqlite:////w/rel/data/app.db"));
    assert_eq!(plan.env[4], var("SEEKJOB_LEGACY_DB_PATH", ""));
    assert_eq!(plan.env.len(), 5);
}

#[test]
fn launch_plan_names_the_two_sinks() {
    let command = BackendCommand { program: "/opt/app/seekjob-backend".to_string(), args: vec![] };
    let paths = ResolvedPaths::under("/data".to_string());
    let plan = launch_plan(&command, 1, "/w", &paths, "");
    assert_eq!(plan.stdout_log, "/data/logs/backend.stdout.log");
    assert_eq!(plan.stderr_log, "/data/logs/backend.stderr.log");
    let elsewhere = ResolvedPaths { data_dir: "/data".to_string(), logs_dir: "/var/log".to_string() };
    let plan = launch_plan(&command, 1, "/w", &elsewhere, "");
    assert_eq!(plan.stdout_log, "/var/log/backend.stdout.log");
    assert_eq!(plan.stderr_log, "/var/log/backend.stderr.log");
}

#[test]
fn running_process_knows_its_address_and_directories() {
    let process = SupervisedProcess::running(77u32, 4100, "/data".to_string());
    assert!(process.is_running());
    assert_eq!(process.api_base(), "http://127.0.0.1:4100/api");
    assert_eq!(process.data_dir(), "/data");
    assert_eq!(process.logs_dir(), "/data/logs");
    let paths = process.app_paths();
    assert_eq!(paths.data_dir, "/data");
    assert_eq!(paths.logs_dir, "/data/logs");
}

#[test]
fn degraded_process_has_the_placeholder_address() {
    let process: SupervisedProcess<u32> = SupervisedProcess::degraded(".".to_string());
    assert!(!process.is_running());
    assert_eq!(process.api_base(), "http://127.0.0.1:0/api");
    assert_eq!(process.data_dir(), ".");
    assert_eq!(process.logs_dir(), "./logs");
}

#[test]
fn kill_twice_hands_the_process_out_once() {
    let mut process = SupervisedProcess::running("child".to_string(), 4100, "/data".to_string());
    assert_eq!(process.kill_if_present(), Some("child".to_string()));
    assert!(!process.is_running());
    assert_eq!(process.kill_if_present(), None);
    assert!(!process.is_running());
    assert_eq!(process.api_base(), "http://127.0.0.1:4100/api");
    assert_eq!(process.data_dir(), "/data");
}

#[test]
fn kill_without_a_process_is_a_no_op() {
    let mut process: SupervisedProcess<u32> = SupervisedProcess::degraded("/data".to_string());
    assert_eq!(process.kill_if_present(), None);
    assert_eq!(process.kill_if_present(), None);
    assert_eq!(process.api_base(), "http://127.0.0.1:0/api");
}
