//! What the locator's answer is, stated against a model of the file system,
//! and the proof that the locator, asked step by step, arrives at it.

use crate::error::{BootstrapErrorView, HostResource};
use crate::locator::{
    spec_action, spec_bare_command, spec_bundled_strategies, spec_candidates, spec_dev_strategies,
    spec_file_strategies, spec_has_match, spec_new, spec_override_strategies, spec_push_children,
    spec_search_step, spec_step, BackendCommandView, DirEntryView, LocatorActionView,
    LocatorEventView, LocatorRequestView, LocatorView, PendingDirView, SearchView, StrategyView,
    MAX_SEARCH_DEPTH,
};
use crate::paths::{spec_child, BACKEND_BIN_NAME};
use vstd::prelude::*;

verus! {

/// A file system as far as the locator can observe it: the paths that exist,
/// and the listing of each directory that can be read.
pub ghost struct FsModel {
    pub present: Set<Seq<char>>,
    pub listings: Map<Seq<char>, Seq<DirEntryView>>,
}

impl FsModel {
    /// Whether `path` exists.
    pub open spec fn is_present(self, path: Seq<char>) -> bool {
        self.present.contains(path)
    }

    /// The entries of `dir`, or `None` where it cannot be read.
    pub open spec fn list(self, dir: Seq<char>) -> Option<Seq<DirEntryView>> {
        if self.listings.dom().contains(dir) {
            Some(self.listings[dir])
        } else {
            None
        }
    }

    /// The event with which this file system answers `action`.
    pub open spec fn answer(self, action: LocatorActionView) -> LocatorEventView {
        match action {
            LocatorActionView::Probe(path) => LocatorEventView::Exists(self.is_present(path)),
            LocatorActionView::List(dir) => LocatorEventView::Listing(self.list(dir)),
            LocatorActionView::Done(_) => LocatorEventView::Exists(false),
        }
    }
}

/// How many levels the search may still descend below a directory at level
/// `depth`.
pub open spec fn spec_budget(depth: nat) -> nat {
    if depth >= MAX_SEARCH_DEPTH {
        0
    } else {
        (MAX_SEARCH_DEPTH - depth) as nat
    }
}

/// The executable found in `dir` or below it, descending at most `budget`
/// levels: a directory's own files come before its subdirectories, and the
/// subdirectories are searched in the order of the listing.
pub open spec fn spec_walk(fs: FsModel, dir: Seq<char>, budget: nat) -> Option<Seq<char>>
    decreases budget, 0nat, 0nat,
{
    match fs.list(dir) {
        None => None,
        Some(entries) => if spec_has_match(entries) {
            Some(spec_child(dir, BACKEND_BIN_NAME@))
        } else if budget == 0 {
            None
        } else {
            spec_walk_children(fs, dir, entries, (budget - 1) as nat)
        },
    }
}

/// The executable found below the first subdirectory among `entries` of `dir`
/// that leads to one.
pub open spec fn spec_walk_children(
    fs: FsModel,
    dir: Seq<char>,
    entries: Seq<DirEntryView>,
    budget: nat,
) -> Option<Seq<char>>
    decreases budget, 1nat, entries.len(),
{
    if entries.len() == 0 {
        None
    } else {
        let first = if entries[0].is_dir {
            spec_walk(fs, spec_child(dir, entries[0].name), budget)
        } else {
            None
        };
        match first {
            Some(path) => Some(path),
            None => spec_walk_children(fs, dir, entries.drop_first(), budget),
        }
    }
}

/// Whether every one of `needs` exists.
pub open spec fn spec_all_present(fs: FsModel, needs: Seq<Seq<char>>) -> bool {
    forall|i: int| 0 <= i < needs.len() ==> fs.is_present(#[trigger] needs[i])
}

/// The command of the first strategy whose needs all exist.
pub open spec fn spec_first_satisfied(
    fs: FsModel,
    strategies: Seq<StrategyView>,
) -> Option<BackendCommandView>
    decreases strategies.len(),
{
    if strategies.len() == 0 {
        None
    } else if spec_all_present(fs, strategies[0].needs) {
        Some(strategies[0].command)
    } else {
        spec_first_satisfied(fs, strategies.drop_first())
    }
}

/// The first of `paths` that exists.
pub open spec fn spec_first_present(fs: FsModel, paths: Seq<Seq<char>>) -> Option<Seq<char>>
    decreases paths.len(),
{
    if paths.len() == 0 {
        None
    } else if fs.is_present(paths[0]) {
        Some(paths[0])
    } else {
        spec_first_present(fs, paths.drop_first())
    }
}

/// What searching the directories on `stack` finds, the last one first.
pub open spec fn spec_search_stack(fs: FsModel, stack: Seq<PendingDirView>) -> Option<Seq<char>>
    decreases stack.len(),
{
    if stack.len() == 0 {
        None
    } else {
        match spec_walk(fs, stack.last().path, spec_budget(stack.last().depth)) {
            Some(path) => Some(path),
            None => spec_search_stack(fs, stack.drop_last()),
        }
    }
}

/// What a search in state `search` ends with.
pub open spec fn spec_search_result(fs: FsModel, search: SearchView) -> Option<Seq<char>> {
    match search.found {
        Some(path) => Some(path),
        None => spec_search_stack(fs, search.stack),
    }
}

/// The answer that a locator in state `l` ends with.
pub open spec fn spec_outcome(fs: FsModel, l: LocatorView) -> Result<
    BackendCommandView,
    BootstrapErrorView,
> {
    match spec_first_satisfied(fs, l.strategies) {
        Some(command) => Ok(command),
        None => match l.search {
            Err(detail) => Err(
                BootstrapErrorView::Host { resource: HostResource::ResourceDir, detail },
            ),
            Ok(search) => match spec_search_result(fs, search) {
                Some(path) => Ok(spec_bare_command(path)),
                None => Err(
                    BootstrapErrorView::NotFound {
                        resource_dir: search.root,
                        file_name: BACKEND_BIN_NAME@,
                    },
                ),
            },
        },
    }
}

/// The command to run, given what the host knows and what is on disk: the
/// override if it exists; else, in development mode, the interpreter with the
/// entry script if both exist; else the first bundled location that exists;
/// else what the bounded search of the resource directory finds.
pub open spec fn spec_resolve(fs: FsModel, request: LocatorRequestView) -> Result<
    BackendCommandView,
    BootstrapErrorView,
> {
    if request.override_bin is Some && fs.is_present(request.override_bin->0) {
        Ok(spec_bare_command(request.override_bin->0))
    } else if request.dev_mode && request.dev_python is Some && request.dev_script is Some
        && fs.is_present(request.dev_python->0) && fs.is_present(request.dev_script->0) {
        Ok(
            BackendCommandView {
                program: request.dev_python->0,
                args: seq![request.dev_script->0],
            },
        )
    } else {
        match request.resource_dir {
            Err(detail) => Err(
                BootstrapErrorView::Host { resource: HostResource::ResourceDir, detail },
            ),
            Ok(dir) => match spec_first_present(fs, spec_candidates(dir)) {
                Some(path) => Ok(spec_bare_command(path)),
                None => match spec_walk(fs, dir, MAX_SEARCH_DEPTH as nat) {
                    Some(path) => Ok(spec_bare_command(path)),
                    None => Err(
                        BootstrapErrorView::NotFound {
                            resource_dir: dir,
                            file_name: BACKEND_BIN_NAME@,
                        },
                    ),
                },
            },
        }
    }
}

/// The locator's state after `steps` exchanges with the file system `fs`.
pub open spec fn spec_run(fs: FsModel, l: LocatorView, steps: nat) -> LocatorView
    decreases steps,
{
    if steps == 0 {
        l
    } else {
        spec_run(fs, spec_step(l, fs.answer(spec_action(l))), (steps - 1) as nat)
    }
}

/// Searching a stack onto which the subdirectories of `dir` were put finds
/// what is below those subdirectories, and else what the stack held before.
pub proof fn lemma_push_children_search(
    fs: FsModel,
    stack: Seq<PendingDirView>,
    dir: Seq<char>,
    entries: Seq<DirEntryView>,
    depth: nat,
)
    ensures
        spec_search_stack(fs, spec_push_children(stack, dir, entries, depth)) == (
        match spec_walk_children(fs, dir, entries, spec_budget(depth)) {
            Some(path) => Some(path),
            None => spec_search_stack(fs, stack),
        }),
    decreases entries.len(),
{
    if entries.len() > 0 {
        let below = spec_push_children(stack, dir, entries.drop_first(), depth);
        lemma_push_children_search(fs, stack, dir, entries.drop_first(), depth);
        if entries[0].is_dir {
            let child = PendingDirView { path: spec_child(dir, entries[0].name), depth };
            assert(below.push(child).last() == child);
            assert(below.push(child).drop_last() == below);
        }
    }
}

/// Listing the directory on top of the stack does not change what the search
/// ends with.
pub proof fn lemma_search_step_keeps_result(fs: FsModel, search: SearchView)
    requires
        search.stack.len() > 0,
        search.found is None,
    ensures
        spec_search_result(fs, spec_search_step(search, fs.list(search.stack.last().path)))
            == spec_search_result(fs, search),
{
    let top = search.stack.last();
    let rest = search.stack.drop_last();
    match fs.list(top.path) {
        None => {},
        Some(entries) => {
            if !spec_has_match(entries) && top.depth < MAX_SEARCH_DEPTH {
                lemma_push_children_search(fs, rest, top.path, entries, top.depth + 1);
                assert(spec_budget(top.depth + 1) == (spec_budget(top.depth) - 1) as nat);
            }
        },
    }
}

/// Every step that the file system answers leaves the locator's final answer
/// as it was.
pub proof fn lemma_step_keeps_outcome(fs: FsModel, l: LocatorView)
    ensures
        spec_outcome(fs, spec_step(l, fs.answer(spec_action(l)))) == spec_outcome(fs, l),
{
    match spec_action(l) {
        LocatorActionView::Probe(path) => {
            let head = l.strategies[0];
            if fs.is_present(path) {
                let shorter = StrategyView { needs: head.needs.drop_first(), ..head };
                let next = l.strategies.update(0, shorter);
                assert(next.drop_first() == l.strategies.drop_first());
                assert(spec_all_present(fs, shorter.needs) == spec_all_present(fs, head.needs))
                    by {
                    if spec_all_present(fs, shorter.needs) {
                        assert forall|i: int| 0 <= i < head.needs.len() implies fs.is_present(
                            #[trigger] head.needs[i],
                        ) by {
                            if i > 0 {
                                assert(head.needs[i] == shorter.needs[i - 1]);
                            }
                        }
                    }
                    if spec_all_present(fs, head.needs) {
                        assert forall|i: int| 0 <= i < shorter.needs.len() implies fs.is_present(
                            #[trigger] shorter.needs[i],
                        ) by {
                            assert(shorter.needs[i] == head.needs[i + 1]);
                        }
                    }
                }
            } else {
                assert(!fs.is_present(head.needs[0]));
            }
        },
        LocatorActionView::List(dir) => {
            lemma_search_step_keeps_result(fs, l.search->Ok_0);
        },
        LocatorActionView::Done(_) => {},
    }
}

/// Once the locator is done, what it reports is its final answer.
pub proof fn lemma_done_is_outcome(fs: FsModel, l: LocatorView)
    ensures
        spec_action(l) matches LocatorActionView::Done(result) ==> result == spec_outcome(fs, l),
{
}

/// The first satisfied strategy of two lists put together is that of the
/// first list, and else that of the second.
pub proof fn lemma_first_satisfied_concat(
    fs: FsModel,
    front: Seq<StrategyView>,
    back: Seq<StrategyView>,
)
    ensures
        spec_first_satisfied(fs, front + back) == (match spec_first_satisfied(fs, front) {
            Some(command) => Some(command),
            None => spec_first_satisfied(fs, back),
        }),
    decreases front.len(),
{
    if front.len() == 0 {
        assert(front + back == back);
    } else {
        assert((front + back).drop_first() == front.drop_first() + back);
        lemma_first_satisfied_concat(fs, front.drop_first(), back);
    }
}

/// Among file strategies the first satisfied one is that of the first path
/// that exists.
pub proof fn lemma_file_strategies(fs: FsModel, paths: Seq<Seq<char>>)
    ensures
        spec_first_satisfied(fs, spec_file_strategies(paths)) == (
        match spec_first_present(fs, paths) {
            Some(path) => Some(spec_bare_command(path)),
            None => None,
        }),
    decreases paths.len(),
{
    if paths.len() > 0 {
        let strategies = spec_file_strategies(paths);
        assert(strategies.drop_first() == spec_file_strategies(paths.drop_first()));
        lemma_file_strategies(fs, paths.drop_first());
        assert(strategies[0].needs[0] == paths[0]);
    }
}

/// The locator's first state ends with the command that `spec_resolve`
/// names.
pub proof fn lemma_initial_outcome(fs: FsModel, request: LocatorRequestView)
    ensures
        spec_outcome(fs, spec_new(request)) == spec_resolve(fs, request),
{
    let first = spec_override_strategies(request);
    let second = spec_dev_strategies(request);
    let third = spec_bundled_strategies(request);
    lemma_first_satisfied_concat(fs, first + second, third);
    lemma_first_satisfied_concat(fs, first, second);
    if request.override_bin is Some {
        let path = request.override_bin->0;
        assert(first[0].needs[0] == path);
        assert(first.drop_first() == Seq::<StrategyView>::empty());
    }
    if second.len() > 0 {
        let python = request.dev_python->0;
        let script = request.dev_script->0;
        assert(second[0].needs[0] == python);
        assert(second[0].needs[1] == script);
        assert(second.drop_first() == Seq::<StrategyView>::empty());
    }
    match request.resource_dir {
        Ok(dir) => {
            lemma_file_strategies(fs, spec_candidates(dir));
            let stack = seq![PendingDirView { path: dir, depth: 0 }];
            assert(stack.drop_last() == Seq::<PendingDirView>::empty());
            assert(spec_search_stack(fs, stack.drop_last()) is None);
            assert(spec_budget(0) == MAX_SEARCH_DEPTH);
            assert(spec_search_stack(fs, stack) == spec_walk(fs, dir, MAX_SEARCH_DEPTH as nat));
        },
        Err(_) => {},
    }
}

/// However many steps the locator has taken against `fs`, its final answer is
/// the command that `spec_resolve` names; when it reports one, it reports
/// that.
pub proof fn lemma_run_resolves(fs: FsModel, request: LocatorRequestView, steps: nat)
    ensures
        spec_outcome(fs, spec_run(fs, spec_new(request), steps)) == spec_resolve(fs, request),
        spec_action(spec_run(fs, spec_new(request), steps)) matches LocatorActionView::Done(
            result,
        ) ==> result == spec_resolve(fs, request),
{
    lemma_initial_outcome(fs, request);
    lemma_run_keeps_outcome(fs, spec_new(request), steps);
    lemma_done_is_outcome(fs, spec_run(fs, spec_new(request), steps));
}

/// A run against `fs` leaves the locator's final answer as it was.
pub proof fn lemma_run_keeps_outcome(fs: FsModel, l: LocatorView, steps: nat)
    ensures
        spec_outcome(fs, spec_run(fs, l, steps)) == spec_outcome(fs, l),
    decreases steps,
{
    if steps > 0 {
        lemma_step_keeps_outcome(fs, l);
        lemma_run_keeps_outcome(
            fs,
            spec_step(l, fs.answer(spec_action(l))),
            (steps - 1) as nat,
        );
    }
}

/// An override that exists is chosen, whatever else exists.
pub proof fn lemma_override_wins(fs: FsModel, request: LocatorRequestView)
    requires
        request.override_bin is Some,
        fs.is_present(request.override_bin->0),
    ensures
        spec_resolve(fs, request) == Ok::<BackendCommandView, BootstrapErrorView>(
            spec_bare_command(request.override_bin->0),
        ),
{
}

/// How many directories the search lists at most in `dir` and below it.
pub open spec fn spec_walk_cost(fs: FsModel, dir: Seq<char>, budget: nat) -> nat
    decreases budget, 0nat, 0nat,
{
    1 + match fs.list(dir) {
        None => 0,
        Some(entries) => if spec_has_match(entries) || budget == 0 {
            0
        } else {
            spec_children_cost(fs, dir, entries, (budget - 1) as nat)
        },
    }
}

/// How many directories the search lists at most below the subdirectories
/// among `entries` of `dir`.
pub open spec fn spec_children_cost(
    fs: FsModel,
    dir: Seq<char>,
    entries: Seq<DirEntryView>,
    budget: nat,
) -> nat
    decreases budget, 1nat, entries.len(),
{
    if entries.len() == 0 {
        0
    } else {
        let first = if entries[0].is_dir {
            spec_walk_cost(fs, spec_child(dir, entries[0].name), budget)
        } else {
            0
        };
        first + spec_children_cost(fs, dir, entries.drop_first(), budget)
    }
}

/// How many directories the search lists at most for the ones on `stack`.
pub open spec fn spec_stack_cost(fs: FsModel, stack: Seq<PendingDirView>) -> nat
    decreases stack.len(),
{
    if stack.len() == 0 {
        0
    } else {
        spec_walk_cost(fs, stack.last().path, spec_budget(stack.last().depth)) + spec_stack_cost(
            fs,
            stack.drop_last(),
        )
    }
}

/// How many probes `strategies` can take at most, one more for each of them.
pub open spec fn spec_probe_cost(strategies: Seq<StrategyView>) -> nat
    decreases strategies.len(),
{
    if strategies.len() == 0 {
        0
    } else {
        strategies[0].needs.len() + 1 + spec_probe_cost(strategies.drop_first())
    }
}

/// A bound on the number of questions that a locator in state `l` still asks
/// of `fs`.
pub open spec fn spec_remaining(fs: FsModel, l: LocatorView) -> nat {
    if spec_action(l) is Done {
        0
    } else {
        spec_probe_cost(l.strategies) + match l.search {
            Ok(search) => spec_stack_cost(fs, search.stack),
            Err(_) => 0,
        }
    }
}

/// Putting the subdirectories of `dir` on a stack adds their cost to it.
pub proof fn lemma_push_children_cost(
    fs: FsModel,
    stack: Seq<PendingDirView>,
    dir: Seq<char>,
    entries: Seq<DirEntryView>,
    depth: nat,
)
    ensures
        spec_stack_cost(fs, spec_push_children(stack, dir, entries, depth)) == spec_children_cost(
            fs,
            dir,
            entries,
            spec_budget(depth),
        ) + spec_stack_cost(fs, stack),
    decreases entries.len(),
{
    if entries.len() > 0 {
        let below = spec_push_children(stack, dir, entries.drop_first(), depth);
        lemma_push_children_cost(fs, stack, dir, entries.drop_first(), depth);
        if entries[0].is_dir {
            let child = PendingDirView { path: spec_child(dir, entries[0].name), depth };
            assert(below.push(child).last() == child);
            assert(below.push(child).drop_last() == below);
        }
    }
}

/// Every answered question brings the locator closer to its answer.
pub proof fn lemma_step_makes_progress(fs: FsModel, l: LocatorView)
    requires
        !(spec_action(l) is Done),
    ensures
        spec_remaining(fs, spec_step(l, fs.answer(spec_action(l)))) < spec_remaining(fs, l),
{
    let next = spec_step(l, fs.answer(spec_action(l)));
    match spec_action(l) {
        LocatorActionView::Probe(path) => {
            let head = l.strategies[0];
            if fs.is_present(path) {
                let shorter = StrategyView { needs: head.needs.drop_first(), ..head };
                assert(next.strategies.drop_first() == l.strategies.drop_first());
            }
        },
        LocatorActionView::List(dir) => {
            let search = l.search->Ok_0;
            let top = search.stack.last();
            let rest = search.stack.drop_last();
            assert(spec_probe_cost(l.strategies) == 0);
            match fs.list(top.path) {
                None => {},
                Some(entries) => {
                    if !spec_has_match(entries) && top.depth < MAX_SEARCH_DEPTH {
                        lemma_push_children_cost(fs, rest, top.path, entries, top.depth + 1);
                        assert(spec_budget(top.depth + 1) == (spec_budget(top.depth) - 1) as nat);
                    }
                },
            }
        },
        LocatorActionView::Done(_) => {},
    }
}

/// A locator that is done stays as it is.
pub proof fn lemma_done_is_final(fs: FsModel, l: LocatorView, steps: nat)
    requires
        spec_action(l) is Done,
    ensures
        spec_run(fs, l, steps) == l,
    decreases steps,
{
    if steps > 0 {
        lemma_done_is_final(fs, l, (steps - 1) as nat);
    }
}

/// The locator is done after at most `spec_remaining` questions.
pub proof fn lemma_run_finishes(fs: FsModel, l: LocatorView, steps: nat)
    requires
        steps >= spec_remaining(fs, l),
    ensures
        spec_action(spec_run(fs, l, steps)) is Done,
    decreases steps,
{
    if spec_action(l) is Done {
        lemma_done_is_final(fs, l, steps);
    } else {
        lemma_step_makes_progress(fs, l);
        lemma_run_finishes(fs, spec_step(l, fs.answer(spec_action(l))), (steps - 1) as nat);
    }
}

/// Asked often enough, the locator reports the command that `spec_resolve`
/// names.
pub proof fn lemma_locator_resolves(fs: FsModel, request: LocatorRequestView, steps: nat)
    requires
        steps >= spec_remaining(fs, spec_new(request)),
    ensures
        spec_action(spec_run(fs, spec_new(request), steps)) == LocatorActionView::Done(
            spec_resolve(fs, request),
        ),
{
    lemma_run_finishes(fs, spec_new(request), steps);
    lemma_run_resolves(fs, request, steps);
}

} // verus!
