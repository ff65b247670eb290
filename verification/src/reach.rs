//! How far the search of the resource directory reaches: it finds the
//! executable exactly when some directory within its depth bound holds it,
//! and what it finds lies below the directory it started from.

use crate::locator::{spec_candidates, spec_has_match, DirEntryView, LocatorRequestView};
use crate::paths::{lemma_child_lies_below, spec_child, BACKEND_BIN_NAME};
use crate::resolution::{
    spec_first_present, spec_resolve, spec_walk, spec_walk_children, FsModel,
};
use vstd::prelude::*;

verus! {

/// The directory reached from `root` by descending, level by level, into the
/// entry at each index of `trail`.
pub open spec fn spec_descend(fs: FsModel, root: Seq<char>, trail: Seq<int>) -> Option<Seq<char>>
    decreases trail.len(),
{
    if trail.len() == 0 {
        Some(root)
    } else {
        match fs.list(root) {
            None => None,
            Some(entries) => if 0 <= trail[0] < entries.len() && entries[trail[0]].is_dir {
                spec_descend(fs, spec_child(root, entries[trail[0]].name), trail.drop_first())
            } else {
                None
            },
        }
    }
}

/// Whether `dir` can be listed and holds the executable.
pub open spec fn spec_holds_match(fs: FsModel, dir: Seq<char>) -> bool {
    fs.list(dir) matches Some(entries) && spec_has_match(entries)
}

/// Whether `trail` leads from `root` to a directory that holds the
/// executable.
pub open spec fn spec_leads_to_match(fs: FsModel, root: Seq<char>, trail: Seq<int>) -> bool {
    spec_descend(fs, root, trail) matches Some(dir) && spec_holds_match(fs, dir)
}

/// Whether a directory at most `budget` levels below `root` holds the
/// executable.
pub open spec fn spec_match_within(fs: FsModel, root: Seq<char>, budget: nat) -> bool {
    exists|trail: Seq<int>|
        trail.len() <= budget && #[trigger] spec_leads_to_match(fs, root, trail)
}

/// What the search finds lies in a directory at most `budget` levels below
/// the one it started from.
pub proof fn lemma_walk_sound(fs: FsModel, dir: Seq<char>, budget: nat) -> (trail: Seq<int>)
    requires
        spec_walk(fs, dir, budget) is Some,
    ensures
        trail.len() <= budget,
        spec_leads_to_match(fs, dir, trail),
        spec_walk(fs, dir, budget) == Some(
            spec_child(spec_descend(fs, dir, trail)->0, BACKEND_BIN_NAME@),
        ),
    decreases budget, 0nat, 0nat,
{
    let entries = fs.list(dir)->0;
    if spec_has_match(entries) {
        let trail = Seq::<int>::empty();
        assert(spec_descend(fs, dir, trail) == Some(dir));
        trail
    } else {
        assert(entries.subrange(0, entries.len() as int) == entries);
        let (index, below) = lemma_walk_children_sound(fs, dir, entries, 0, (budget - 1) as nat);
        let trail = seq![index] + below;
        assert(trail[0] == index);
        assert(trail.drop_first() == below);
        trail
    }
}

/// What the search finds below the entries of `dir` from index `from` on lies
/// below one of them.
pub proof fn lemma_walk_children_sound(
    fs: FsModel,
    dir: Seq<char>,
    entries: Seq<DirEntryView>,
    from: int,
    budget: nat,
) -> (found: (int, Seq<int>))
    requires
        0 <= from <= entries.len(),
        spec_walk_children(fs, dir, entries.subrange(from, entries.len() as int), budget) is Some,
    ensures
        from <= found.0 < entries.len(),
        entries[found.0].is_dir,
        found.1.len() <= budget,
        spec_leads_to_match(fs, spec_child(dir, entries[found.0].name), found.1),
        spec_walk_children(fs, dir, entries.subrange(from, entries.len() as int), budget) == Some(
            spec_child(
                spec_descend(fs, spec_child(dir, entries[found.0].name), found.1)->0,
                BACKEND_BIN_NAME@,
            ),
        ),
    decreases budget, 1nat, entries.len() - from,
{
    let tail = entries.subrange(from, entries.len() as int);
    assert(tail[0] == entries[from]);
    assert(tail.drop_first() == entries.subrange(from + 1, entries.len() as int));
    let child = spec_child(dir, entries[from].name);
    if entries[from].is_dir && spec_walk(fs, child, budget) is Some {
        let below = lemma_walk_sound(fs, child, budget);
        (from, below)
    } else {
        lemma_walk_children_sound(fs, dir, entries, from + 1, budget)
    }
}

/// Where one of the subdirectories leads to the executable, the search below
/// them finds one.
pub proof fn lemma_walk_children_complete(
    fs: FsModel,
    dir: Seq<char>,
    entries: Seq<DirEntryView>,
    index: int,
    budget: nat,
)
    requires
        0 <= index < entries.len(),
        entries[index].is_dir,
        spec_walk(fs, spec_child(dir, entries[index].name), budget) is Some,
    ensures
        spec_walk_children(fs, dir, entries, budget) is Some,
    decreases entries.len(),
{
    if index > 0 {
        assert(entries.drop_first()[index - 1] == entries[index]);
        lemma_walk_children_complete(fs, dir, entries.drop_first(), index - 1, budget);
    }
}

/// Where a directory within the bound holds the executable, the search finds
/// one.
pub proof fn lemma_walk_complete(fs: FsModel, dir: Seq<char>, trail: Seq<int>, budget: nat)
    requires
        trail.len() <= budget,
        spec_leads_to_match(fs, dir, trail),
    ensures
        spec_walk(fs, dir, budget) is Some,
    decreases trail.len(),
{
    if trail.len() > 0 {
        let entries = fs.list(dir)->0;
        if !spec_has_match(entries) {
            let child = spec_child(dir, entries[trail[0]].name);
            lemma_walk_complete(fs, child, trail.drop_first(), (budget - 1) as nat);
            lemma_walk_children_complete(fs, dir, entries, trail[0], (budget - 1) as nat);
        }
    }
}

/// The search finds an executable exactly when a directory at most `budget`
/// levels below its start holds one: nothing deeper is ever found.
pub proof fn lemma_search_depth_bound(fs: FsModel, root: Seq<char>, budget: nat)
    ensures
        spec_walk(fs, root, budget) is Some <==> spec_match_within(fs, root, budget),
{
    if spec_walk(fs, root, budget) is Some {
        let trail = lemma_walk_sound(fs, root, budget);
        assert(spec_leads_to_match(fs, root, trail));
    }
    if spec_match_within(fs, root, budget) {
        let trail = choose|trail: Seq<int>|
            trail.len() <= budget && #[trigger] spec_leads_to_match(fs, root, trail);
        lemma_walk_complete(fs, root, trail, budget);
    }
}

/// What begins a text that begins another begins that other too.
pub proof fn lemma_prefix_of_prefix(first: Seq<char>, second: Seq<char>, third: Seq<char>)
    requires
        first.is_prefix_of(second),
        second.is_prefix_of(third),
    ensures
        first.is_prefix_of(third),
{
    assert(first =~= third.subrange(0, first.len() as int)) by {
        assert forall|i: int| 0 <= i < first.len() implies first[i] == third.subrange(
            0,
            first.len() as int,
        )[i] by {
            assert(first[i] == second.subrange(0, first.len() as int)[i]);
            assert(second[i] == third.subrange(0, second.len() as int)[i]);
        }
    }
}

/// What the search finds lies below the directory it started from, whatever
/// the names in the listings are.
pub proof fn lemma_walk_stays_below(fs: FsModel, dir: Seq<char>, budget: nat)
    requires
        spec_walk(fs, dir, budget) is Some,
    ensures
        dir.is_prefix_of(spec_walk(fs, dir, budget)->0),
    decreases budget, 0nat, 0nat,
{
    let entries = fs.list(dir)->0;
    if spec_has_match(entries) {
        lemma_child_lies_below(dir, BACKEND_BIN_NAME@);
    } else {
        lemma_walk_children_stay_below(fs, dir, entries, (budget - 1) as nat);
    }
}

/// What the search finds below the subdirectories of `dir` lies below `dir`.
pub proof fn lemma_walk_children_stay_below(
    fs: FsModel,
    dir: Seq<char>,
    entries: Seq<DirEntryView>,
    budget: nat,
)
    requires
        spec_walk_children(fs, dir, entries, budget) is Some,
    ensures
        dir.is_prefix_of(spec_walk_children(fs, dir, entries, budget)->0),
    decreases budget, 1nat, entries.len(),
{
    let below = spec_child(dir, entries[0].name);
    if entries[0].is_dir && spec_walk(fs, below, budget) is Some {
        lemma_walk_stays_below(fs, below, budget);
        lemma_child_lies_below(dir, entries[0].name);
        lemma_prefix_of_prefix(dir, below, spec_walk(fs, below, budget)->0);
    } else {
        lemma_walk_children_stay_below(fs, dir, entries.drop_first(), budget);
    }
}

/// The first of some paths that exists is one of them.
pub proof fn lemma_first_present_is_one(fs: FsModel, paths: Seq<Seq<char>>) -> (index: int)
    requires
        spec_first_present(fs, paths) is Some,
    ensures
        0 <= index < paths.len(),
        paths[index] == spec_first_present(fs, paths)->0,
    decreases paths.len(),
{
    if fs.is_present(paths[0]) {
        0
    } else {
        let index = lemma_first_present_is_one(fs, paths.drop_first());
        assert(paths.drop_first()[index] == paths[index + 1]);
        index + 1
    }
}

/// Whether the override or the development pair of `request` is chosen.
pub open spec fn spec_chosen_by_variables(fs: FsModel, request: LocatorRequestView) -> bool {
    ||| request.override_bin is Some && fs.is_present(request.override_bin->0)
    ||| request.dev_mode && request.dev_python is Some && request.dev_script is Some
        && fs.is_present(request.dev_python->0) && fs.is_present(request.dev_script->0)
}

/// Unless the override or the development pair is chosen, the executable
/// that is found lies below the resource directory and is run without
/// arguments.
pub proof fn lemma_bundled_backend_lies_below(fs: FsModel, request: LocatorRequestView)
    requires
        !spec_chosen_by_variables(fs, request),
        spec_resolve(fs, request) is Ok,
    ensures
        request.resource_dir is Ok,
        request.resource_dir->Ok_0.is_prefix_of(spec_resolve(fs, request)->Ok_0.program),
        spec_resolve(fs, request)->Ok_0.args.len() == 0,
{
    let dir = request.resource_dir->Ok_0;
    let candidates = spec_candidates(dir);
    if spec_first_present(fs, candidates) is Some {
        let index = lemma_first_present_is_one(fs, candidates);
        lemma_child_lies_below(dir, BACKEND_BIN_NAME@);
        lemma_child_lies_below(dir, "backend/dist/"@ + BACKEND_BIN_NAME@);
        lemma_child_lies_below(dir, "backend/"@ + BACKEND_BIN_NAME@);
        lemma_child_lies_below(dir, "_up_/backend/dist/"@ + BACKEND_BIN_NAME@);
        lemma_child_lies_below(dir, "_up_/_up_/backend/dist/"@ + BACKEND_BIN_NAME@);
    } else {
        lemma_walk_stays_below(fs, dir, crate::locator::MAX_SEARCH_DEPTH as nat);
    }
}

} // verus!
