use backend_supervisor::error::{BootstrapError, HostResource};
use backend_supervisor::locator::{
    BackendCommand, BackendLocator, DirEntry, LocatorAction, LocatorEvent, LocatorRequest,
    MAX_SEARCH_DEPTH,
};
use std::collections::{HashMap, HashSet};

struct FakeFs {
    present: HashSet<String>,
    listings: HashMap<String, Vec<DirEntry>>,
}

impl FakeFs {
    fn new() -> FakeFs {
        FakeFs { present: HashSet::new(), listings: HashMap::new() }
    }

    fn ensure_dir(&mut self, dir: &str) {
        self.present.insert(dir.to_string());
        self.listings.entry(dir.to_string()).or_default();
    }

    fn add_entry(&mut self, dir: &str, name: &str, is_file: bool, is_dir: bool) {
        self.ensure_dir(dir);
        let entries = self.listings.get_mut(dir).unwrap();
        if !entries.iter().any(|e| e.name == name) {
            entries.push(DirEntry { name: name.to_string(), is_file, is_dir });
        }
    }

    /// Adds the directory `path` below `root`, with every directory on the way.
    fn add_dir(&mut self, root: &str, path: &[&str]) -> String {
        let mut dir = root.to_string();
        self.ensure_dir(&dir);
        for name in path {
            self.add_entry(&dir, name, false, true);
            dir = format!("{}/{}", dir, name);
            self.ensure_dir(&dir);
        }
        dir
    }

    /// Adds the regular file `name` in the directory `path` below `root`.
    fn add_file(&mut self, root: &str, path: &[&str], name: &str) -> String {
        let dir = self.add_dir(root, path);
        self.add_entry(&dir, name, true, false);
        let file = format!("{}/{}", dir, name);
        self.present.insert(file.clone());
        file
    }
}

struct Run {
    result: Result<BackendCommand, BootstrapError>,
    probed: Vec<String>,
    listed: Vec<String>,
}

fn resolve(fs: &FakeFs, request: LocatorRequest) -> Run {
    let mut locator = BackendLocator::new(&request);
    let mut probed = Vec::new();
    let mut listed = Vec::new();
    let mut steps = 0;
    loop {
        let event = match locator.action() {
            LocatorAction::Done(result) => return Run { result, probed, listed },
            LocatorAction::Probe(path) => {
                let present = fs.present.contains(&path);
                probed.push(path);
                LocatorEvent::Exists(present)
            }
            LocatorAction::List(dir) => {
                let listing = fs.listings.get(&dir).cloned();
                listed.push(dir);
                LocatorEvent::Listing(listing)
            }
        };
        locator = locator.step(event);
        steps += 1;
        assert!(steps < 10_000, "the locator does not come to an end");
    }
}

fn request(resource_dir: &str) -> LocatorRequest {
    LocatorRequest {
        override_bin: None,
        dev_mode: false,
        dev_python: None,
        dev_script: None,
        resource_dir: Ok(resource_dir.to_string()),
    }
}

fn bare(program: &str) -> Result<BackendCommand, BootstrapError> {
    Ok(BackendCommand { program: program.to_string(), args: Vec::new() })
}

fn not_found(resource_dir: &str) -> Result<BackendCommand, BootstrapError> {
    Err(BootstrapError::NotFound {
        resource_dir: resource_dir.to_string(),
        file_name: "seekjob-backend".to_string(),
    })
}

#[test]
fn override_takes_priority_over_bundled_candidates() {
    let mut fs = FakeFs::new();
    fs.add_file("/res", &[], "seekjob-backend");
    fs.add_file("/res", &["backend", "dist"], "seekjob-backend");
    fs.add_file("/custom", &[], "my-backend");
    let mut req = request("/res");
    req.override_bin = Some("/custom/my-backend".to_string());
    let run = resolve(&fs, req);
    assert_eq!(run.result, bare("/custom/my-backend"));
    assert_eq!(run.probed, vec!["/custom/my-backend".to_string()]);
    assert!(run.listed.is_empty());
}

#[test]
fn override_is_used_even_without_a_resource_dir() {
    let mut fs = FakeFs::new();
    fs.add_file("/custom", &[], "my-backend");
    let req = LocatorRequest {
        override_bin: Some("/custom/my-backend".to_string()),
        dev_mode: false,
        dev_python: None,
        dev_script: None,
        resource_dir: Err("no resources".to_string()),
    };
    assert_eq!(resolve(&fs, req).result, bare("/custom/my-backend"));
}

#[test]
fn missing_override_falls_through_to_candidates() {
    let mut fs = FakeFs::new();
    fs.add_file("/res", &["backend"], "seekjob-backend");
    let mut req = request("/res");
    req.override_bin = Some("/custom/gone".to_string());
    let run = resolve(&fs, req);
    assert_eq!(run.result, bare("/res/backend/seekjob-backend"));
    assert_eq!(
        run.probed,
        vec![
            "/custom/gone".to_string(),
            "/res/seekjob-backend".to_string(),
            "/res/backend/dist/seekjob-backend".to_string(),
            "/res/backend/seekjob-backend".to_string(),
        ]
    );
}

#[test]
fn dev_pair_runs_the_script_with_the_interpreter() {
    let mut fs = FakeFs::new();
    fs.add_file("/venv/bin", &[], "python");
    fs.add_file("/src", &[], "run.py");
    fs.add_file("/res", &[], "seekjob-backend");
    let mut req = request("/res");
    req.dev_mode = true;
    req.dev_python = Some("/venv/bin/python".to_string());
    req.dev_script = Some("/src/run.py".to_string());
    let run = resolve(&fs, req);
    assert_eq!(
        run.result,
        Ok(BackendCommand {
            program: "/venv/bin/python".to_string(),
            args: vec!["/src/run.py".to_string()],
        })
    );
    assert_eq!(run.probed, vec!["/venv/bin/python".to_string(), "/src/run.py".to_string()]);
}

#[test]
fn dev_pair_is_ignored_outside_development_mode() {
    let mut fs = FakeFs::new();
    fs.add_file("/venv/bin", &[], "python");
    fs.add_file("/src", &[], "run.py");
    fs.add_file("/res", &[], "seekjob-backend");
    let mut req = request("/res");
    req.dev_python = Some("/venv/bin/python".to_string());
    req.dev_script = Some("/src/run.py".to_string());
    let run = resolve(&fs, req);
    assert_eq!(run.result, bare("/res/seekjob-backend"));
    assert_eq!(run.probed, vec!["/res/seekjob-backend".to_string()]);
}

#[test]
fn dev_pair_needs_both_variables_and_both_files() {
    let mut fs = FakeFs::new();
    fs.add_file("/venv/bin", &[], "python");
    fs.add_file("/res", &[], "seekjob-backend");

    let mut only_python = request("/res");
    only_python.dev_mode = true;
    only_python.dev_python = Some("/venv/bin/python".to_string());
    assert_eq!(resolve(&fs, only_python).result, bare("/res/seekjob-backend"));

    let mut script_gone = request("/res");
    script_gone.dev_mode = true;
    script_gone.dev_python = Some("/venv/bin/python".to_string());
    script_gone.dev_script = Some("/src/run.py".to_string());
    let second = resolve(&fs, script_gone);
    assert_eq!(second.result, bare("/res/seekjob-backend"));
    assert_eq!(
        second.probed,
        vec![
            "/venv/bin/python".to_string(),
            "/src/run.py".to_string(),
            "/res/seekjob-backend".to_string(),
        ]
    );

    let mut python_gone = request("/res");
    python_gone.dev_mode = true;
    python_gone.dev_python = Some("/venv/bin/python3".to_string());
    python_gone.dev_script = Some("/src/run.py".to_string());
    let third = resolve(&fs, python_gone);
    assert_eq!(third.result, bare("/res/seekjob-backend"));
    assert_eq!(
        third.probed,
        vec!["/venv/bin/python3".to_string(), "/res/seekjob-backend".to_string()]
    );
}

#[test]
fn override_comes_before_the_dev_pair() {
    let mut fs = FakeFs::new();
    fs.add_file("/venv/bin", &[], "python");
    fs.add_file("/src", &[], "run.py");
    fs.add_file("/custom", &[], "my-backend");
    let mut req = request("/res");
    req.override_bin = Some("/custom/my-backend".to_string());
    req.dev_mode = true;
    req.dev_python = Some("/venv/bin/python".to_string());
    req.dev_script = Some("/src/run.py".to_string());
    assert_eq!(resolve(&fs, req).result, bare("/custom/my-backend"));
}

#[test]
fn bundled_candidates_are_tried_in_their_order() {
    let layouts: [(&[&str], &str); 5] = [
        (&[], "/res/seekjob-backend"),
        (&["backend", "dist"], "/res/backend/dist/seekjob-backend"),
        (&["backend"], "/res/backend/seekjob-backend"),
        (&["_up_", "backend", "dist"], "/res/_up_/backend/dist/seekjob-backend"),
        (&["_up_", "_up_", "backend", "dist"], "/res/_up_/_up_/backend/dist/seekjob-backend"),
    ];
    for first in 0..layouts.len() {
        let mut fs = FakeFs::new();
        for (dirs, _) in &layouts[first..] {
            fs.add_file("/res", dirs, "seekjob-backend");
        }
        let run = resolve(&fs, request("/res"));
        assert_eq!(run.result, bare(layouts[first].1));
        let expected: Vec<String> =
            layouts[..=first].iter().map(|(_, path)| path.to_string()).collect();
        assert_eq!(run.probed, expected);
        assert!(run.listed.is_empty());
    }
}

#[test]
fn resource_dir_with_trailing_separator() {
    let mut fs = FakeFs::new();
    fs.present.insert("/res/backend/dist/seekjob-backend".to_string());
    let run = resolve(&fs, request("/res/"));
    assert_eq!(run.result, bare("/res/backend/dist/seekjob-backend"));
}

#[test]
fn search_finds_binary_three_levels_deep() {
    let mut fs = FakeFs::new();
    fs.add_file("/res", &["x", "y", "z"], "seekjob-backend");
    let run = resolve(&fs, request("/res"));
    assert_eq!(run.result, bare("/res/x/y/z/seekjob-backend"));
    assert_eq!(run.probed.len(), 5);
    assert_eq!(
        run.listed,
        vec![
            "/res".to_string(),
            "/res/x".to_string(),
            "/res/x/y".to_string(),
            "/res/x/y/z".to_string()
        ]
    );
}

#[test]
fn search_reaches_depth_six_and_no_further() {
    let six = ["d1", "d2", "d3", "d4", "d5", "d6"];
    let seven = ["d1", "d2", "d3", "d4", "d5", "d6", "d7"];
    assert_eq!(MAX_SEARCH_DEPTH, 6);

    let mut at_six = FakeFs::new();
    at_six.add_file("/res", &six, "seekjob-backend");
    assert_eq!(
        resolve(&at_six, request("/res")).result,
        bare("/res/d1/d2/d3/d4/d5/d6/seekjob-backend")
    );

    let mut at_seven = FakeFs::new();
    at_seven.add_file("/res", &seven, "seekjob-backend");
    let deep = resolve(&at_seven, request("/res"));
    assert_eq!(deep.result, not_found("/res"));
    assert_eq!(deep.listed.len(), 7);
    assert!(!deep.listed.contains(&"/res/d1/d2/d3/d4/d5/d6/d7".to_string()));
}

#[test]
fn search_prefers_files_to_subdirectories() {
    let mut fs = FakeFs::new();
    fs.add_file("/res", &["pkg", "early"], "seekjob-backend");
    fs.add_file("/res", &["pkg"], "seekjob-backend");
    let run = resolve(&fs, request("/res"));
    assert_eq!(run.result, bare("/res/pkg/seekjob-backend"));
    assert_eq!(run.listed, vec!["/res".to_string(), "/res/pkg".to_string()]);
}

#[test]
fn search_follows_the_order_of_the_listing() {
    let mut fs = FakeFs::new();
    fs.add_file("/res", &["first", "deep", "deeper"], "seekjob-backend");
    fs.add_file("/res", &["second"], "seekjob-backend");
    let run = resolve(&fs, request("/res"));
    assert_eq!(run.result, bare("/res/first/deep/deeper/seekjob-backend"));

    let mut swapped = FakeFs::new();
    swapped.add_file("/res", &["second"], "seekjob-backend");
    swapped.add_file("/res", &["first", "deep", "deeper"], "seekjob-backend");
    assert_eq!(resolve(&swapped, request("/res")).result, bare("/res/second/seekjob-backend"));
}

#[test]
fn search_exhausts_a_subtree_before_the_next() {
    let mut fs = FakeFs::new();
    fs.add_file("/res", &["a", "a1"], "other");
    fs.add_file("/res", &["a", "a2"], "readme");
    fs.add_file("/res", &["b"], "seekjob-backend");
    let run = resolve(&fs, request("/res"));
    assert_eq!(run.result, bare("/res/b/seekjob-backend"));
    assert_eq!(
        run.listed,
        vec![
            "/res".to_string(),
            "/res/a".to_string(),
            "/res/a/a1".to_string(),
            "/res/a/a2".to_string(),
            "/res/b".to_string(),
        ]
    );
}

#[test]
fn search_wants_a_regular_file_of_that_name() {
    let mut fs = FakeFs::new();
    fs.add_dir("/res", &["pkg", "seekjob-backend"]);
    fs.add_file("/res", &["pkg"], "seekjob-backend.bak");
    fs.add_file("/res", &["pkg"], "Seekjob-Backend");
    assert_eq!(resolve(&fs, request("/res")).result, not_found("/res"));

    fs.add_file("/res", &["pkg", "seekjob-backend"], "seekjob-backend");
    assert_eq!(
        resolve(&fs, request("/res")).result,
        bare("/res/pkg/seekjob-backend/seekjob-backend")
    );
}

#[test]
fn search_stays_below_the_resource_dir() {
    let mut fs = FakeFs::new();
    fs.ensure_dir("/res");
    fs.listings.get_mut("/res").unwrap().push(DirEntry {
        name: "/outside".to_string(),
        is_file: false,
        is_dir: true,
    });
    fs.add_file("/outside", &[], "seekjob-backend");
    let run = resolve(&fs, request("/res"));
    assert_eq!(run.result, not_found("/res"));
    assert_eq!(run.listed, vec!["/res".to_string(), "/res//outside".to_string()]);
}

#[test]
fn search_skips_what_cannot_be_listed() {
    let mut fs = FakeFs::new();
    fs.add_file("/res", &["locked"], "seekjob-backend");
    fs.listings.remove("/res/locked");
    fs.add_file("/res", &["open"], "seekjob-backend");
    let run = resolve(&fs, request("/res"));
    assert_eq!(run.result, bare("/res/open/seekjob-backend"));
    assert_eq!(
        run.listed,
        vec!["/res".to_string(), "/res/locked".to_string(), "/res/open".to_string()]
    );
}

#[test]
fn search_does_not_descend_into_what_is_no_directory() {
    let mut fs = FakeFs::new();
    fs.add_entry("/res", "notes.txt", true, false);
    fs.add_entry("/res", "socket", false, false);
    let run = resolve(&fs, request("/res"));
    assert_eq!(run.result, not_found("/res"));
    assert_eq!(run.listed, vec!["/res".to_string()]);
}

#[test]
fn empty_resource_dir_is_not_found() {
    let mut fs = FakeFs::new();
    fs.ensure_dir("/opt/app/resources");
    let run = resolve(&fs, request("/opt/app/resources"));
    assert_eq!(run.result, not_found("/opt/app/resources"));
    assert_eq!(
        run.result.unwrap_err().message(),
        "Embedded backend binary not found under /opt/app/resources. Expected file name: seekjob-backend"
    );
    assert_eq!(run.probed.len(), 5);
    assert_eq!(run.listed, vec!["/opt/app/resources".to_string()]);
}

#[test]
fn missing_resource_dir_is_not_found() {
    let fs = FakeFs::new();
    assert_eq!(resolve(&fs, request("/nowhere")).result, not_found("/nowhere"));
}

#[test]
fn unresolved_resource_dir_is_reported() {
    let fs = FakeFs::new();
    let req = LocatorRequest {
        override_bin: Some("/custom/gone".to_string()),
        dev_mode: true,
        dev_python: Some("/venv/bin/python".to_string()),
        dev_script: Some("/src/run.py".to_string()),
        resource_dir: Err("asset resolver missing".to_string()),
    };
    let run = resolve(&fs, req);
    assert_eq!(
        run.result,
        Err(BootstrapError::Host {
            resource: HostResource::ResourceDir,
            detail: "asset resolver missing".to_string(),
        })
    );
    assert_eq!(
        run.result.unwrap_err().message(),
        "Cannot resolve Tauri resources dir: asset resolver missing"
    );
    assert_eq!(run.probed, vec!["/custom/gone".to_string(), "/venv/bin/python".to_string()]);
}

#[test]
fn an_event_that_was_not_asked_for_changes_nothing() {
    let locator = BackendLocator::new(&request("/res"));
    assert_eq!(locator.action(), LocatorAction::Probe("/res/seekjob-backend".to_string()));
    let same = locator.step(LocatorEvent::Listing(Some(vec![DirEntry {
        name: "seekjob-backend".to_string(),
        is_file: true,
        is_dir: false,
    }])));
    assert_eq!(same, BackendLocator::new(&request("/res")));

    let mut walking = BackendLocator::new(&request("/res"));
    for _ in 0..5 {
        walking = walking.step(LocatorEvent::Exists(false));
    }
    assert_eq!(walking.action(), LocatorAction::List("/res".to_string()));
    let still = walking.step(LocatorEvent::Exists(true));
    assert_eq!(still.action(), LocatorAction::List("/res".to_string()));
}

#[test]
fn a_finished_locator_stays_finished() {
    let mut locator = BackendLocator::new(&request("/res"));
    locator = locator.step(LocatorEvent::Exists(true));
    assert_eq!(locator.action(), LocatorAction::Done(bare("/res/seekjob-backend")));
    locator = locator.step(LocatorEvent::Exists(false));
    locator = locator.step(LocatorEvent::Listing(None));
    assert_eq!(locator.action(), LocatorAction::Done(bare("/res/seekjob-backend")));
}

#[test]
fn command_duplicate_is_equal() {
    let command = BackendCommand {
        program: "/venv/bin/python".to_string(),
        args: vec!["/src/run.py".to_string(), "--port".to_string()],
    };
    assert_eq!(command.duplicate(), command);
}
