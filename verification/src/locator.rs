//! Finding the backend executable.
//!
//! The locator holds an ordered list of strategies, each a command together
//! with the paths that must exist for it to be chosen, and behind them a
//! depth-bounded search of the resource directory. It never touches the file
//! system itself: it names a path to probe or a directory to list, and is told
//! what was found.

use crate::error::{BootstrapError, BootstrapErrorView, HostResource};
use crate::paths::{child, spec_child, BACKEND_BIN_NAME};
use crate::text::text_eq;
use vstd::prelude::*;
use vstd::string::*;

verus! {

/// How many levels below the resource directory the search descends.
pub const MAX_SEARCH_DEPTH: usize = 6;

/// The variable whose value names the executable directly.
pub const BACKEND_BIN_VAR: &'static str = "SEEKJOB_BACKEND_BIN";

/// The variable whose value names the development interpreter.
pub const DEV_PYTHON_VAR: &'static str = "SEEKJOB_BACKEND_DEV_PYTHON";

/// The variable whose value names the development entry script.
pub const DEV_SCRIPT_VAR: &'static str = "SEEKJOB_BACKEND_DEV_SCRIPT";

/// The program to run and its arguments.
#[derive(Clone, Debug, PartialEq, Eq)]
pub struct BackendCommand {
    pub program: String,
    pub args: Vec<String>,
}

/// A `BackendCommand` as a mathematical value.
pub ghost struct BackendCommandView {
    pub program: Seq<char>,
    pub args: Seq<Seq<char>>,
}

/// The texts of a sequence of strings.
pub open spec fn spec_texts(strings: Seq<String>) -> Seq<Seq<char>> {
    Seq::new(strings.len(), |i: int| strings[i]@)
}

impl View for BackendCommand {
    type V = BackendCommandView;

    open spec fn view(&self) -> BackendCommandView {
        BackendCommandView { program: self.program@, args: spec_texts(self.args@) }
    }
}

/// The command that runs `program` without arguments.
pub open spec fn spec_bare_command(program: Seq<char>) -> BackendCommandView {
    BackendCommandView { program, args: Seq::empty() }
}

/// What the host knows before any path is probed.
#[derive(Debug, PartialEq, Eq)]
pub struct LocatorRequest {
    /// The value of the variable that names the executable directly.
    pub override_bin: Option<String>,
    /// Whether the host runs in development mode.
    pub dev_mode: bool,
    /// The value of the variable that names the development interpreter.
    pub dev_python: Option<String>,
    /// The value of the variable that names the development entry script.
    pub dev_script: Option<String>,
    /// The host's resource directory, or why the host could not name it.
    pub resource_dir: Result<String, String>,
}

/// A `LocatorRequest` as a mathematical value.
pub ghost struct LocatorRequestView {
    pub override_bin: Option<Seq<char>>,
    pub dev_mode: bool,
    pub dev_python: Option<Seq<char>>,
    pub dev_script: Option<Seq<char>>,
    pub resource_dir: Result<Seq<char>, Seq<char>>,
}

/// An optional string as a mathematical value.
pub open spec fn spec_opt_string(text: Option<String>) -> Option<Seq<char>> {
    match text {
        Some(t) => Some(t@),
        None => None,
    }
}

impl View for LocatorRequest {
    type V = LocatorRequestView;

    open spec fn view(&self) -> LocatorRequestView {
        LocatorRequestView {
            override_bin: spec_opt_string(self.override_bin),
            dev_mode: self.dev_mode,
            dev_python: spec_opt_string(self.dev_python),
            dev_script: spec_opt_string(self.dev_script),
            resource_dir: match self.resource_dir {
                Ok(dir) => Ok(dir@),
                Err(detail) => Err(detail@),
            },
        }
    }
}

/// A command and the paths that must all exist for it to be chosen.
#[derive(Clone, Debug, PartialEq, Eq)]
pub struct Strategy {
    pub needs: Vec<String>,
    pub command: BackendCommand,
}

/// A `Strategy` as a mathematical value.
pub ghost struct StrategyView {
    pub needs: Seq<Seq<char>>,
    pub command: BackendCommandView,
}

impl View for Strategy {
    type V = StrategyView;

    open spec fn view(&self) -> StrategyView {
        StrategyView { needs: spec_texts(self.needs@), command: self.command@ }
    }
}

/// The views of a sequence of strategies.
pub open spec fn spec_strategy_views(strategies: Seq<Strategy>) -> Seq<StrategyView> {
    Seq::new(strategies.len(), |i: int| strategies[i]@)
}

/// One entry of a directory listing. The two flags say what the entry leads
/// to once links are followed.
#[derive(Clone, Debug, PartialEq, Eq)]
pub struct DirEntry {
    pub name: String,
    pub is_file: bool,
    pub is_dir: bool,
}

/// A `DirEntry` as a mathematical value.
pub ghost struct DirEntryView {
    pub name: Seq<char>,
    pub is_file: bool,
    pub is_dir: bool,
}

impl View for DirEntry {
    type V = DirEntryView;

    open spec fn view(&self) -> DirEntryView {
        DirEntryView { name: self.name@, is_file: self.is_file, is_dir: self.is_dir }
    }
}

/// The views of a sequence of directory entries.
pub open spec fn spec_entry_views(entries: Seq<DirEntry>) -> Seq<DirEntryView> {
    Seq::new(entries.len(), |i: int| entries[i]@)
}

/// A directory that the search has yet to list, and its level below the
/// resource directory.
#[derive(Clone, Debug, PartialEq, Eq)]
pub struct PendingDir {
    pub path: String,
    pub depth: usize,
}

/// A `PendingDir` as a mathematical value.
pub ghost struct PendingDirView {
    pub path: Seq<char>,
    pub depth: nat,
}

impl View for PendingDir {
    type V = PendingDirView;

    open spec fn view(&self) -> PendingDirView {
        PendingDirView { path: self.path@, depth: self.depth as nat }
    }
}

/// The views of a sequence of pending directories.
pub open spec fn spec_pending_views(stack: Seq<PendingDir>) -> Seq<PendingDirView> {
    Seq::new(stack.len(), |i: int| stack[i]@)
}

/// The search of the resource directory: the directories still to list, the
/// next one last, and the executable once it is found.
#[derive(Clone, Debug, PartialEq, Eq)]
pub struct Search {
    pub root: String,
    pub stack: Vec<PendingDir>,
    pub found: Option<String>,
}

/// A `Search` as a mathematical value.
pub ghost struct SearchView {
    pub root: Seq<char>,
    pub stack: Seq<PendingDirView>,
    pub found: Option<Seq<char>>,
}

impl View for Search {
    type V = SearchView;

    open spec fn view(&self) -> SearchView {
        SearchView {
            root: self.root@,
            stack: spec_pending_views(self.stack@),
            found: spec_opt_string(self.found),
        }
    }
}

/// The locator's state: the strategies not yet ruled out, in priority order,
/// and the search that follows them, or why no search can follow.
#[derive(Debug, PartialEq, Eq)]
pub struct BackendLocator {
    pub strategies: Vec<Strategy>,
    pub search: Result<Search, String>,
}

/// A `BackendLocator` as a mathematical value.
pub ghost struct LocatorView {
    pub strategies: Seq<StrategyView>,
    pub search: Result<SearchView, Seq<char>>,
}

impl View for BackendLocator {
    type V = LocatorView;

    open spec fn view(&self) -> LocatorView {
        LocatorView {
            strategies: spec_strategy_views(self.strategies@),
            search: match self.search {
                Ok(search) => Ok(search@),
                Err(detail) => Err(detail@),
            },
        }
    }
}

/// What the locator asks of the host, or its final answer.
#[derive(Debug, PartialEq, Eq)]
pub enum LocatorAction {
    /// Say whether this path exists.
    Probe(String),
    /// List this directory.
    List(String),
    /// Nothing more to ask.
    Done(Result<BackendCommand, BootstrapError>),
}

/// A `LocatorAction` as a mathematical value.
pub ghost enum LocatorActionView {
    Probe(Seq<char>),
    List(Seq<char>),
    Done(Result<BackendCommandView, BootstrapErrorView>),
}

impl View for LocatorAction {
    type V = LocatorActionView;

    open spec fn view(&self) -> LocatorActionView {
        match *self {
            LocatorAction::Probe(path) => LocatorActionView::Probe(path@),
            LocatorAction::List(dir) => LocatorActionView::List(dir@),
            LocatorAction::Done(Ok(command)) => LocatorActionView::Done(Ok(command@)),
            LocatorAction::Done(Err(error)) => LocatorActionView::Done(Err(error@)),
        }
    }
}

/// What the host found.
#[derive(Clone, Debug, PartialEq, Eq)]
pub enum LocatorEvent {
    /// Whether the probed path exists.
    Exists(bool),
    /// The entries of the listed directory, or `None` where it cannot be read.
    Listing(Option<Vec<DirEntry>>),
}

/// A `LocatorEvent` as a mathematical value.
pub ghost enum LocatorEventView {
    Exists(bool),
    Listing(Option<Seq<DirEntryView>>),
}

impl View for LocatorEvent {
    type V = LocatorEventView;

    open spec fn view(&self) -> LocatorEventView {
        match *self {
            LocatorEvent::Exists(present) => LocatorEventView::Exists(present),
            LocatorEvent::Listing(Some(entries)) => LocatorEventView::Listing(
                Some(spec_entry_views(entries@)),
            ),
            LocatorEvent::Listing(None) => LocatorEventView::Listing(None),
        }
    }
}

/// The bundled locations of the executable below the resource directory, in
/// priority order.
pub open spec fn spec_candidates(resource_dir: Seq<char>) -> Seq<Seq<char>> {
    seq![
        spec_child(resource_dir, BACKEND_BIN_NAME@),
        spec_child(resource_dir, "backend/dist/"@ + BACKEND_BIN_NAME@),
        spec_child(resource_dir, "backend/"@ + BACKEND_BIN_NAME@),
        spec_child(resource_dir, "_up_/backend/dist/"@ + BACKEND_BIN_NAME@),
        spec_child(resource_dir, "_up_/_up_/backend/dist/"@ + BACKEND_BIN_NAME@),
    ]
}

/// The strategy that chooses the executable at `path` if it exists.
pub open spec fn spec_file_strategy(path: Seq<char>) -> StrategyView {
    StrategyView { needs: seq![path], command: spec_bare_command(path) }
}

/// The strategy that runs `script` with the interpreter `python` if both
/// exist.
pub open spec fn spec_dev_strategy(python: Seq<char>, script: Seq<char>) -> StrategyView {
    StrategyView {
        needs: seq![python, script],
        command: BackendCommandView { program: python, args: seq![script] },
    }
}

/// The strategies that the override variable gives rise to.
pub open spec fn spec_override_strategies(request: LocatorRequestView) -> Seq<StrategyView> {
    match request.override_bin {
        Some(path) => seq![spec_file_strategy(path)],
        None => Seq::empty(),
    }
}

/// The strategies that the development variables give rise to.
pub open spec fn spec_dev_strategies(request: LocatorRequestView) -> Seq<StrategyView> {
    if request.dev_mode && request.dev_python is Some && request.dev_script is Some {
        seq![spec_dev_strategy(request.dev_python->0, request.dev_script->0)]
    } else {
        Seq::empty()
    }
}

/// One file strategy for each of `paths`, in order.
pub open spec fn spec_file_strategies(paths: Seq<Seq<char>>) -> Seq<StrategyView> {
    Seq::new(paths.len(), |i: int| spec_file_strategy(paths[i]))
}

/// The strategies that the bundled locations give rise to.
pub open spec fn spec_bundled_strategies(request: LocatorRequestView) -> Seq<StrategyView> {
    match request.resource_dir {
        Ok(dir) => spec_file_strategies(spec_candidates(dir)),
        Err(_) => Seq::empty(),
    }
}

/// The locator's first state: the override, then the development pair, then
/// the bundled locations; behind them the search from the resource directory.
pub open spec fn spec_new(request: LocatorRequestView) -> LocatorView {
    LocatorView {
        strategies: spec_override_strategies(request) + spec_dev_strategies(request)
            + spec_bundled_strategies(request),
        search: match request.resource_dir {
            Ok(dir) => Ok(
                SearchView {
                    root: dir,
                    stack: seq![PendingDirView { path: dir, depth: 0 }],
                    found: None,
                },
            ),
            Err(detail) => Err(detail),
        },
    }
}

/// Whether a listing holds a regular file with the executable's name.
pub open spec fn spec_has_match(entries: Seq<DirEntryView>) -> bool {
    exists|i: int|
        0 <= i < entries.len() && (#[trigger] entries[i]).is_file && entries[i].name
            == BACKEND_BIN_NAME@
}

/// `stack` with the subdirectories among `entries` of `dir` put on it, the
/// first of them last, each at level `depth`.
pub open spec fn spec_push_children(
    stack: Seq<PendingDirView>,
    dir: Seq<char>,
    entries: Seq<DirEntryView>,
    depth: nat,
) -> Seq<PendingDirView>
    decreases entries.len(),
{
    if entries.len() == 0 {
        stack
    } else {
        let below = spec_push_children(stack, dir, entries.drop_first(), depth);
        if entries[0].is_dir {
            below.push(PendingDirView { path: spec_child(dir, entries[0].name), depth })
        } else {
            below
        }
    }
}

/// The search after the directory on top of its stack was listed.
pub open spec fn spec_search_step(
    search: SearchView,
    listing: Option<Seq<DirEntryView>>,
) -> SearchView
    recommends
        search.stack.len() > 0,
{
    let top = search.stack.last();
    let rest = search.stack.drop_last();
    match listing {
        None => SearchView { stack: rest, ..search },
        Some(entries) => if spec_has_match(entries) {
            SearchView {
                stack: rest,
                found: Some(spec_child(top.path, BACKEND_BIN_NAME@)),
                ..search
            }
        } else if top.depth >= MAX_SEARCH_DEPTH {
            SearchView { stack: rest, ..search }
        } else {
            SearchView {
                stack: spec_push_children(rest, top.path, entries, top.depth + 1),
                ..search
            }
        },
    }
}

/// What the locator in state `l` asks next.
pub open spec fn spec_action(l: LocatorView) -> LocatorActionView {
    if l.strategies.len() > 0 {
        if l.strategies[0].needs.len() > 0 {
            LocatorActionView::Probe(l.strategies[0].needs[0])
        } else {
            LocatorActionView::Done(Ok(l.strategies[0].command))
        }
    } else {
        match l.search {
            Err(detail) => LocatorActionView::Done(
                Err(BootstrapErrorView::Host { resource: HostResource::ResourceDir, detail }),
            ),
            Ok(search) => match search.found {
                Some(path) => LocatorActionView::Done(Ok(spec_bare_command(path))),
                None => if search.stack.len() > 0 {
                    LocatorActionView::List(search.stack.last().path)
                } else {
                    LocatorActionView::Done(
                        Err(
                            BootstrapErrorView::NotFound {
                                resource_dir: search.root,
                                file_name: BACKEND_BIN_NAME@,
                            },
                        ),
                    )
                },
            },
        }
    }
}

/// The state after `event`. An event that does not answer the pending
/// question leaves the state as it is.
pub open spec fn spec_step(l: LocatorView, event: LocatorEventView) -> LocatorView {
    match (spec_action(l), event) {
        (LocatorActionView::Probe(_), LocatorEventView::Exists(present)) => if present {
            LocatorView {
                strategies: l.strategies.update(
                    0,
                    StrategyView { needs: l.strategies[0].needs.drop_first(), ..l.strategies[0] },
                ),
                ..l
            }
        } else {
            LocatorView { strategies: l.strategies.drop_first(), ..l }
        },
        (LocatorActionView::List(_), LocatorEventView::Listing(listing)) => LocatorView {
            search: Ok(spec_search_step(l.search->Ok_0, listing)),
            ..l
        },
        _ => l,
    }
}

/// A copy of `texts`.
fn duplicate_texts(texts: &Vec<String>) -> (copy: Vec<String>)
    ensures
        spec_texts(copy@) == spec_texts(texts@),
{
    let mut copy: Vec<String> = Vec::new();
    let mut i: usize = 0;
    while i < texts.len()
        invariant
            i <= texts.len(),
            copy.len() == i,
            forall|k: int| 0 <= k < i ==> copy@[k]@ == texts@[k]@,
        decreases texts.len() - i,
    {
        copy.push(texts[i].clone());
        i = i + 1;
    }
    assert(spec_texts(copy@) =~= spec_texts(texts@));
    copy
}

impl BackendCommand {
    /// A copy of the command.
    pub fn duplicate(&self) -> (copy: BackendCommand)
        ensures
            copy@ == self@,
    {
        BackendCommand { program: self.program.clone(), args: duplicate_texts(&self.args) }
    }
}

/// The command that runs `program` without arguments.
fn bare_command(program: String) -> (command: BackendCommand)
    ensures
        command@ == spec_bare_command(program@),
{
    let command = BackendCommand { program, args: Vec::new() };
    assert(spec_texts(command.args@) =~= Seq::empty());
    command
}

/// The strategy that chooses the executable at `path` if it exists.
fn file_strategy(path: String) -> (strategy: Strategy)
    ensures
        strategy@ == spec_file_strategy(path@),
{
    let mut needs: Vec<String> = Vec::new();
    needs.push(path.clone());
    assert(spec_texts(needs@) =~= seq![path@]);
    Strategy { needs, command: bare_command(path) }
}

/// The strategy that runs `script` with `python` if both exist.
fn dev_strategy(python: String, script: String) -> (strategy: Strategy)
    ensures
        strategy@ == spec_dev_strategy(python@, script@),
{
    let mut needs: Vec<String> = Vec::new();
    needs.push(python.clone());
    needs.push(script.clone());
    assert(spec_texts(needs@) =~= seq![python@, script@]);
    let mut args: Vec<String> = Vec::new();
    args.push(script);
    assert(spec_texts(args@) =~= seq![script@]);
    Strategy { needs, command: BackendCommand { program: python, args } }
}

/// The bundled location `prefix` followed by the executable's name, below
/// `dir`.
fn bundled_path(dir: &str, prefix: &str) -> (path: String)
    ensures
        path@ == spec_child(dir@, prefix@ + BACKEND_BIN_NAME@),
{
    let mut rel = prefix.to_owned();
    rel.append(BACKEND_BIN_NAME);
    child(dir, rel.as_str())
}

/// Whether `entries` holds a regular file with the executable's name.
fn has_match(entries: &Vec<DirEntry>) -> (found: bool)
    ensures
        found == spec_has_match(spec_entry_views(entries@)),
{
    let mut i: usize = 0;
    while i < entries.len()
        invariant
            i <= entries.len(),
            forall|k: int|
                0 <= k < i ==> !((#[trigger] spec_entry_views(entries@)[k]).is_file
                    && spec_entry_views(entries@)[k].name == BACKEND_BIN_NAME@),
        decreases entries.len() - i,
    {
        if entries[i].is_file && text_eq(entries[i].name.as_str(), BACKEND_BIN_NAME) {
            assert(spec_entry_views(entries@)[i as int].is_file);
            return true;
        }
        i = i + 1;
    }
    false
}

/// Puts the subdirectories among `entries` of `dir` on `stack`, the first of
/// them last.
fn push_children(stack: &mut Vec<PendingDir>, dir: &str, entries: &Vec<DirEntry>, depth: usize)
    ensures
        spec_pending_views(final(stack)@) == spec_push_children(
            spec_pending_views(old(stack)@),
            dir@,
            spec_entry_views(entries@),
            depth as nat,
        ),
{
    let ghost all = spec_entry_views(entries@);
    let ghost base = spec_pending_views(old(stack)@);
    let mut i: usize = entries.len();
    assert(all.subrange(i as int, all.len() as int) =~= Seq::empty());
    while i > 0
        invariant
            i <= entries.len(),
            all == spec_entry_views(entries@),
            spec_pending_views(stack@) == spec_push_children(
                base,
                dir@,
                all.subrange(i as int, all.len() as int),
                depth as nat,
            ),
        decreases i,
    {
        i = i - 1;
        proof {
            let tail = all.subrange(i as int, all.len() as int);
            assert(tail.drop_first() =~= all.subrange(i + 1, all.len() as int));
            assert(tail[0] == entries@[i as int]@);
        }
        let ghost before = stack@;
        if entries[i].is_dir {
            let child = PendingDir { path: child(dir, entries[i].name.as_str()), depth };
            stack.push(child);
            assert(spec_pending_views(stack@) =~= spec_pending_views(before).push(child@));
        }
    }
    assert(all.subrange(0, all.len() as int) =~= all);
}

/// The listing's entries as mathematical values.
pub open spec fn spec_listing_view(listing: Option<Vec<DirEntry>>) -> Option<Seq<DirEntryView>> {
    match listing {
        Some(entries) => Some(spec_entry_views(entries@)),
        None => None,
    }
}

/// The search after the directory on top of its stack was listed.
fn search_step(search: Search, listing: Option<Vec<DirEntry>>) -> (next: Search)
    requires
        search.stack.len() > 0,
    ensures
        next@ == spec_search_step(search@, spec_listing_view(listing)),
{
    let Search { root, stack, found } = search;
    let mut stack = stack;
    let ghost before = stack@;
    let top = stack.pop().unwrap();
    assert(spec_pending_views(stack@) =~= spec_pending_views(before).drop_last());
    assert(top@ == spec_pending_views(before).last());
    match listing {
        None => Search { root, stack, found },
        Some(entries) => {
            if has_match(&entries) {
                let path = child(top.path.as_str(), BACKEND_BIN_NAME);
                Search { root, stack, found: Some(path) }
            } else if top.depth >= MAX_SEARCH_DEPTH {
                Search { root, stack, found }
            } else {
                push_children(&mut stack, top.path.as_str(), &entries, top.depth + 1);
                Search { root, stack, found }
            }
        },
    }
}

impl BackendLocator {
    /// The locator's first state for `request`.
    pub fn new(request: &LocatorRequest) -> (locator: BackendLocator)
        ensures
            locator@ == spec_new(request@),
    {
        let mut strategies: Vec<Strategy> = Vec::new();
        if let Some(path) = &request.override_bin {
            strategies.push(file_strategy(path.clone()));
        }
        assert(spec_strategy_views(strategies@) =~= spec_override_strategies(request@));
        if request.dev_mode {
            if let Some(python) = &request.dev_python {
                if let Some(script) = &request.dev_script {
                    strategies.push(dev_strategy(python.clone(), script.clone()));
                }
            }
        }
        assert(spec_strategy_views(strategies@) =~= spec_override_strategies(request@)
            + spec_dev_strategies(request@));
        match &request.resource_dir {
            Ok(dir) => {
                let ghost fixed = spec_strategy_views(strategies@);
                strategies.push(file_strategy(child(dir.as_str(), BACKEND_BIN_NAME)));
                strategies.push(file_strategy(bundled_path(dir.as_str(), "backend/dist/")));
                strategies.push(file_strategy(bundled_path(dir.as_str(), "backend/")));
                strategies.push(file_strategy(bundled_path(dir.as_str(), "_up_/backend/dist/")));
                strategies.push(
                    file_strategy(bundled_path(dir.as_str(), "_up_/_up_/backend/dist/")),
                );
                assert(spec_strategy_views(strategies@) =~= fixed + spec_bundled_strategies(
                    request@,
                ));
                let mut stack: Vec<PendingDir> = Vec::new();
                stack.push(PendingDir { path: dir.clone(), depth: 0 });
                assert(spec_pending_views(stack@) =~= seq![
                    PendingDirView { path: dir@, depth: 0 },
                ]);
                BackendLocator {
                    strategies,
                    search: Ok(Search { root: dir.clone(), stack, found: None }),
                }
            },
            Err(detail) => {
                assert(spec_strategy_views(strategies@) =~= spec_strategy_views(strategies@)
                    + spec_bundled_strategies(request@));
                BackendLocator { strategies, search: Err(detail.clone()) }
            },
        }
    }

    /// What the locator asks next.
    pub fn action(&self) -> (action: LocatorAction)
        ensures
            action@ == spec_action(self@),
    {
        if self.strategies.len() > 0 {
            if self.strategies[0].needs.len() > 0 {
                LocatorAction::Probe(self.strategies[0].needs[0].clone())
            } else {
                LocatorAction::Done(Ok(self.strategies[0].command.duplicate()))
            }
        } else {
            match &self.search {
                Err(detail) => LocatorAction::Done(
                    Err(
                        BootstrapError::Host {
                            resource: HostResource::ResourceDir,
                            detail: detail.clone(),
                        },
                    ),
                ),
                Ok(search) => match &search.found {
                    Some(path) => LocatorAction::Done(Ok(bare_command(path.clone()))),
                    None => if search.stack.len() > 0 {
                        LocatorAction::List(search.stack[search.stack.len() - 1].path.clone())
                    } else {
                        LocatorAction::Done(
                            Err(
                                BootstrapError::NotFound {
                                    resource_dir: search.root.clone(),
                                    file_name: BACKEND_BIN_NAME.to_owned(),
                                },
                            ),
                        )
                    },
                },
            }
        }
    }

    /// The state after `event`.
    pub fn step(self, event: LocatorEvent) -> (next: BackendLocator)
        ensures
            next@ == spec_step(self@, event@),
    {
        let BackendLocator { strategies, search } = self;
        let mut strategies = strategies;
        match event {
            LocatorEvent::Exists(present) => {
                if strategies.len() > 0 && strategies[0].needs.len() > 0 {
                    let ghost before = strategies@;
                    let mut head = strategies.remove(0);
                    assert(spec_strategy_views(strategies@) =~= spec_strategy_views(
                        before,
                    ).drop_first());
                    if present {
                        let ghost needs = head.needs@;
                        head.needs.remove(0);
                        assert(spec_texts(head.needs@) =~= spec_texts(needs).drop_first());
                        strategies.insert(0, head);
                        assert(spec_strategy_views(strategies@) =~= spec_strategy_views(
                            before,
                        ).update(0, head@));
                    }
                }
                BackendLocator { strategies, search }
            },
            LocatorEvent::Listing(listing) => {
                if strategies.len() == 0 {
                    match search {
                        Ok(search) => {
                            if search.found.is_none() && search.stack.len() > 0 {
                                BackendLocator {
                                    strategies,
                                    search: Ok(search_step(search, listing)),
                                }
                            } else {
                                BackendLocator { strategies, search: Ok(search) }
                            }
                        },
                        Err(detail) => BackendLocator { strategies, search: Err(detail) },
                    }
                } else {
                    BackendLocator { strategies, search }
                }
            },
        }
    }
}

} // verus!
