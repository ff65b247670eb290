//! Paths as `/`-separated text, and the few strings derived from them.

use crate::error::{
    spec_answer_view, spec_opt_error, BootstrapError, BootstrapErrorView, HostResource,
};
use crate::text::{decimal, spec_decimal, spec_trim, trim};
use vstd::prelude::*;
use vstd::string::*;

verus! {

/// The separator between the components of a path.
pub open spec fn spec_is_separator(c: char) -> bool {
    c == '/'
}

/// Whether `path` begins at the root.
pub open spec fn spec_is_absolute(path: Seq<char>) -> bool {
    path.len() > 0 && spec_is_separator(path[0])
}

/// The path `rel` below `dir`: `rel` is appended to `dir`, with a separator
/// between the two unless `dir` is empty or already ends with one.
pub open spec fn spec_child(dir: Seq<char>, rel: Seq<char>) -> Seq<char> {
    if dir.len() == 0 || spec_is_separator(dir[dir.len() - 1]) {
        dir + rel
    } else {
        dir + seq!['/'] + rel
    }
}

/// `base` extended by `rel`: an absolute `rel` replaces `base`; any other
/// lies below it.
pub open spec fn spec_join(base: Seq<char>, rel: Seq<char>) -> Seq<char> {
    if spec_is_absolute(rel) {
        rel
    } else {
        spec_child(base, rel)
    }
}

/// `path` as seen from the directory `working_dir`: an absolute path is left
/// as it is; any other lies below the working directory.
pub open spec fn spec_absolute(working_dir: Seq<char>, path: Seq<char>) -> Seq<char> {
    if spec_is_absolute(path) {
        path
    } else {
        spec_child(working_dir, path)
    }
}

/// Whether `path` begins at the root.
pub fn is_absolute(path: &str) -> (absolute: bool)
    ensures
        absolute == spec_is_absolute(path@),
{
    let len: usize = path.unicode_len();
    len > 0 && path.get_char(0) == '/'
}

/// The path `rel` below `dir`.
pub fn child(dir: &str, rel: &str) -> (path: String)
    ensures
        path@ == spec_child(dir@, rel@),
{
    let dir_len: usize = dir.unicode_len();
    let mut path: String = dir.to_owned();
    if dir_len != 0 && dir.get_char(dir_len - 1) != '/' {
        proof {
            reveal_strlit("/");
        }
        path.append("/");
        assert("/"@ =~= seq!['/']);
    }
    path.append(rel);
    path
}

/// Joins two paths.
pub fn join(base: &str, rel: &str) -> (joined: String)
    ensures
        joined@ == spec_join(base@, rel@),
{
    if is_absolute(rel) {
        rel.to_owned()
    } else {
        child(base, rel)
    }
}

/// `path` as seen from the directory `working_dir`.
pub fn absolute(working_dir: &str, path: &str) -> (anchored: String)
    ensures
        anchored@ == spec_absolute(working_dir@, path@),
{
    if is_absolute(path) {
        path.to_owned()
    } else {
        child(working_dir, path)
    }
}

/// A path below a directory begins with that directory, and begins at the
/// root where the directory does.
pub proof fn lemma_child_lies_below(dir: Seq<char>, rel: Seq<char>)
    ensures
        dir.is_prefix_of(spec_child(dir, rel)),
        spec_is_absolute(dir) ==> spec_is_absolute(spec_child(dir, rel)),
{
    let path = spec_child(dir, rel);
    assert(path.subrange(0, dir.len() as int) =~= dir);
}

/// Seen from a working directory that begins at the root, every path begins
/// at the root.
pub proof fn lemma_absolute_is_absolute(working_dir: Seq<char>, path: Seq<char>)
    requires
        spec_is_absolute(working_dir) || spec_is_absolute(path),
    ensures
        spec_is_absolute(spec_absolute(working_dir, path)),
{
    lemma_child_lies_below(working_dir, path);
}

/// The file name under which the backend executable is bundled.
pub const BACKEND_BIN_NAME: &'static str = "seekjob-backend";

/// The variable whose value overrides the data directory.
pub const DATA_DIR_OVERRIDE_VAR: &'static str = "SEEKJOB_DATA_DIR_OVERRIDE";

/// The variable whose value names the user's home directory.
pub const HOME_VAR: &'static str = "HOME";

/// The address at which a backend listening on `port` serves its API.
pub open spec fn spec_api_base(port: u16) -> Seq<char> {
    "http://127.0.0.1:"@ + spec_decimal(port as nat) + "/api"@
}

/// The address polled to learn whether the backend at `api_base` is ready.
pub open spec fn spec_health_url(api_base: Seq<char>) -> Seq<char> {
    api_base + "/health"@
}

/// The directory of the backend's logs, inside the data directory.
pub open spec fn spec_logs_dir(data_dir: Seq<char>) -> Seq<char> {
    spec_join(data_dir, "logs"@)
}

/// The file that receives the backend's standard output.
pub open spec fn spec_stdout_log(logs_dir: Seq<char>) -> Seq<char> {
    spec_join(logs_dir, "backend.stdout.log"@)
}

/// The file that receives the backend's standard error.
pub open spec fn spec_stderr_log(logs_dir: Seq<char>) -> Seq<char> {
    spec_join(logs_dir, "backend.stderr.log"@)
}

/// The database file inside the data directory, as seen from the host's
/// working directory.
pub open spec fn spec_database_file(working_dir: Seq<char>, data_dir: Seq<char>) -> Seq<char> {
    spec_child(spec_absolute(working_dir, data_dir), "app.db"@)
}

/// The connection string of the database file inside the data directory.
pub open spec fn spec_database_url(working_dir: Seq<char>, data_dir: Seq<char>) -> Seq<char> {
    "sqlite:///"@ + spec_database_file(working_dir, data_dir)
}

/// The working directory that the host named, and the empty text where it
/// named none.
pub open spec fn spec_working_dir(working_dir: Result<Seq<char>, Seq<char>>) -> Seq<char> {
    match working_dir {
        Ok(dir) => dir,
        Err(_) => Seq::empty(),
    }
}

/// Why the database file of `data_dir` has no absolute path, if it has none:
/// the data directory does not begin at the root, and the host could not
/// name its working directory, or named one that does not begin at the root.
pub open spec fn spec_anchor_failure(
    working_dir: Result<Seq<char>, Seq<char>>,
    data_dir: Seq<char>,
) -> Option<BootstrapErrorView> {
    if spec_is_absolute(data_dir) {
        None
    } else {
        match working_dir {
            Ok(dir) => if spec_is_absolute(dir) {
                None
            } else {
                Some(
                    BootstrapErrorView::Host {
                        resource: HostResource::WorkingDir,
                        detail: "not an absolute path: "@ + dir,
                    },
                )
            },
            Err(detail) => Some(
                BootstrapErrorView::Host { resource: HostResource::WorkingDir, detail },
            ),
        }
    }
}

/// The data directory below a user's home directory.
pub open spec fn spec_home_data_dir(home: Seq<char>) -> Seq<char> {
    spec_join(spec_join(spec_join(home, "Library"@), "Application Support"@), "SeekJob"@)
}

/// An optional text as a mathematical value.
pub open spec fn spec_opt_text(text: Option<&str>) -> Option<Seq<char>> {
    match text {
        Some(t) => Some(t@),
        None => None,
    }
}

/// The data directory: a non-blank override wins, then a non-blank home
/// directory, then the directory that the host names for application data.
pub open spec fn spec_resolve_data_dir(
    override_dir: Option<Seq<char>>,
    home: Option<Seq<char>>,
    app_data_dir: Result<Seq<char>, Seq<char>>,
) -> Result<Seq<char>, BootstrapErrorView> {
    if override_dir is Some && spec_trim(override_dir->0).len() > 0 {
        Ok(spec_trim(override_dir->0))
    } else if home is Some && spec_trim(home->0).len() > 0 {
        Ok(spec_home_data_dir(spec_trim(home->0)))
    } else {
        match app_data_dir {
            Ok(dir) => Ok(dir),
            Err(detail) => Err(
                BootstrapErrorView::Host { resource: HostResource::AppDataDir, detail },
            ),
        }
    }
}

/// The directories that the backend works in.
#[derive(Clone, Debug, PartialEq, Eq)]
pub struct ResolvedPaths {
    pub data_dir: String,
    pub logs_dir: String,
}

/// A `ResolvedPaths` as a mathematical value.
pub ghost struct ResolvedPathsView {
    pub data_dir: Seq<char>,
    pub logs_dir: Seq<char>,
}

impl View for ResolvedPaths {
    type V = ResolvedPathsView;

    open spec fn view(&self) -> ResolvedPathsView {
        ResolvedPathsView { data_dir: self.data_dir@, logs_dir: self.logs_dir@ }
    }
}

/// The directories for the data directory `data_dir`.
pub open spec fn spec_paths_under(data_dir: Seq<char>) -> ResolvedPathsView {
    ResolvedPathsView { data_dir, logs_dir: spec_logs_dir(data_dir) }
}

impl ResolvedPaths {
    /// The directories for the data directory `data_dir`.
    pub fn under(data_dir: String) -> (paths: ResolvedPaths)
        ensures
            paths@ == spec_paths_under(data_dir@),
    {
        let logs = logs_dir(data_dir.as_str());
        ResolvedPaths { data_dir, logs_dir: logs }
    }
}

/// The API base address for `port`.
pub fn api_base(port: u16) -> (address: String)
    ensures
        address@ == spec_api_base(port),
{
    let mut address = "http://127.0.0.1:".to_owned();
    let numeral = decimal(port as u64);
    address.append(numeral.as_str());
    address.append("/api");
    address
}

/// The health address of the backend at `api_base`.
pub fn health_url(api_base: &str) -> (address: String)
    ensures
        address@ == spec_health_url(api_base@),
{
    let mut address = api_base.to_owned();
    address.append("/health");
    address
}

/// The logs directory inside `data_dir`.
pub fn logs_dir(data_dir: &str) -> (dir: String)
    ensures
        dir@ == spec_logs_dir(data_dir@),
{
    join(data_dir, "logs")
}

/// The standard-output log inside `logs_dir`.
pub fn stdout_log(logs_dir: &str) -> (file: String)
    ensures
        file@ == spec_stdout_log(logs_dir@),
{
    join(logs_dir, "backend.stdout.log")
}

/// The standard-error log inside `logs_dir`.
pub fn stderr_log(logs_dir: &str) -> (file: String)
    ensures
        file@ == spec_stderr_log(logs_dir@),
{
    join(logs_dir, "backend.stderr.log")
}

/// The database connection string for `data_dir`, as seen from the host's
/// working directory.
pub fn database_url(working_dir: &str, data_dir: &str) -> (url: String)
    ensures
        url@ == spec_database_url(working_dir@, data_dir@),
{
    let mut url = "sqlite:///".to_owned();
    let anchored = absolute(working_dir, data_dir);
    let file = child(anchored.as_str(), "app.db");
    url.append(file.as_str());
    url
}

/// The working directory that the host named, and the empty text where it
/// named none.
pub fn working_dir_text(working_dir: &Result<String, String>) -> (dir: String)
    ensures
        dir@ == spec_working_dir(spec_answer_view(*working_dir)),
{
    match working_dir {
        Ok(dir) => dir.clone(),
        Err(_) => String::new(),
    }
}

/// Why the database file of `data_dir` has no absolute path, if it has none.
pub fn anchor_failure(working_dir: &Result<String, String>, data_dir: &str) -> (failure: Option<
    BootstrapError,
>)
    ensures
        spec_opt_error(failure) == spec_anchor_failure(spec_answer_view(*working_dir), data_dir@),
{
    if is_absolute(data_dir) {
        return None;
    }
    match working_dir {
        Ok(dir) => if is_absolute(dir.as_str()) {
            None
        } else {
            let mut detail = "not an absolute path: ".to_owned();
            detail.append(dir.as_str());
            Some(BootstrapError::Host { resource: HostResource::WorkingDir, detail })
        },
        Err(detail) => Some(
            BootstrapError::Host { resource: HostResource::WorkingDir, detail: detail.clone() },
        ),
    }
}

/// Where nothing stands in the way, the connection string names the
/// database file by an absolute path: three separators for the scheme, and
/// then the path from the root.
pub proof fn lemma_database_url_is_absolute(
    working_dir: Result<Seq<char>, Seq<char>>,
    data_dir: Seq<char>,
)
    requires
        spec_anchor_failure(working_dir, data_dir) is None,
    ensures
        spec_is_absolute(spec_database_file(spec_working_dir(working_dir), data_dir)),
        spec_absolute(spec_working_dir(working_dir), data_dir).is_prefix_of(
            spec_database_file(spec_working_dir(working_dir), data_dir),
        ),
        spec_is_absolute(data_dir) ==> spec_database_file(spec_working_dir(working_dir), data_dir)
            == spec_child(data_dir, "app.db"@),
{
    let dir = spec_working_dir(working_dir);
    lemma_absolute_is_absolute(dir, data_dir);
    lemma_child_lies_below(spec_absolute(dir, data_dir), "app.db"@);
}

/// Chooses the data directory from the override variable's value, the home
/// variable's value and the host's own answer.
pub fn resolve_seekjob_data_dir(
    override_dir: Option<&str>,
    home: Option<&str>,
    app_data_dir: Result<String, String>,
) -> (resolved: Result<String, BootstrapError>)
    ensures
        match resolved {
            Ok(dir) => Ok::<Seq<char>, BootstrapErrorView>(dir@),
            Err(e) => Err(e@),
        } == spec_resolve_data_dir(
            spec_opt_text(override_dir),
            spec_opt_text(home),
            match app_data_dir {
                Ok(dir) => Ok(dir@),
                Err(detail) => Err(detail@),
            },
        ),
{
    if let Some(raw) = override_dir {
        let trimmed = trim(raw);
        if !trimmed.as_str().is_empty() {
            return Ok(trimmed);
        }
    }
    if let Some(raw) = home {
        let trimmed = trim(raw);
        if !trimmed.as_str().is_empty() {
            let library = join(trimmed.as_str(), "Library");
            let support = join(library.as_str(), "Application Support");
            return Ok(join(support.as_str(), "SeekJob"));
        }
    }
    match app_data_dir {
        Ok(dir) => Ok(dir),
        Err(detail) => Err(BootstrapError::Host { resource: HostResource::AppDataDir, detail }),
    }
}

} // verus!
