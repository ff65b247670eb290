//! Finding the database of an earlier installation.
//!
//! The hint, where the environment gives one, is tried first, then two known
//! locations. The first path that exists is the answer; the empty text says
//! that none does.

use crate::resolution::{spec_first_present, FsModel};
use crate::text::{spec_trim, trim};
use vstd::prelude::*;
use vstd::string::*;

verus! {

/// The variable whose value hints at an earlier database; the backend is
/// told the database that was found under the same name.
pub const LEGACY_DB_VAR: &'static str = "SEEKJOB_LEGACY_DB_PATH";

/// The first known location of an earlier database.
pub const LEGACY_DB_PRIMARY: &'static str =
    "/Volumes/PubliLab-EXHD/Publilab/Projects/PubliLab/GitHub/Linkedin/backend/app.db";

/// The second known location of an earlier database.
pub const LEGACY_DB_SECONDARY: &'static str =
    "/Volumes/PubliLab-EXHD/Publilab/Projects/PubliLab/GitHub/linkedin/backend/app.db";

/// The locator's state: the paths not yet ruled out, in priority order, and
/// the database once it is found.
#[derive(Clone, Debug, PartialEq, Eq)]
pub struct LegacyDbLocator {
    pub candidates: Vec<String>,
    pub found: Option<String>,
}

/// A `LegacyDbLocator` as a mathematical value.
pub ghost struct LegacyDbView {
    pub candidates: Seq<Seq<char>>,
    pub found: Option<Seq<char>>,
}

/// The texts of a sequence of paths.
pub open spec fn spec_path_views(paths: Seq<String>) -> Seq<Seq<char>> {
    Seq::new(paths.len(), |i: int| paths[i]@)
}

impl View for LegacyDbLocator {
    type V = LegacyDbView;

    open spec fn view(&self) -> LegacyDbView {
        LegacyDbView {
            candidates: spec_path_views(self.candidates@),
            found: match self.found {
                Some(path) => Some(path@),
                None => None,
            },
        }
    }
}

/// What the locator asks of the host, or its final answer.
#[derive(Clone, Debug, PartialEq, Eq)]
pub enum LegacyDbAction {
    /// Say whether this path exists.
    Probe(String),
    /// Nothing more to ask: the path of the database, or the empty text.
    Done(String),
}

/// A `LegacyDbAction` as a mathematical value.
pub ghost enum LegacyDbActionView {
    Probe(Seq<char>),
    Done(Seq<char>),
}

impl View for LegacyDbAction {
    type V = LegacyDbActionView;

    open spec fn view(&self) -> LegacyDbActionView {
        match *self {
            LegacyDbAction::Probe(path) => LegacyDbActionView::Probe(path@),
            LegacyDbAction::Done(path) => LegacyDbActionView::Done(path@),
        }
    }
}

/// The paths to try for `hint`: the hint without surrounding white space
/// unless that leaves nothing, then the two known locations.
pub open spec fn spec_candidates(hint: Option<Seq<char>>) -> Seq<Seq<char>> {
    let known = seq![LEGACY_DB_PRIMARY@, LEGACY_DB_SECONDARY@];
    if hint is Some && spec_trim(hint->0).len() > 0 {
        seq![spec_trim(hint->0)] + known
    } else {
        known
    }
}

/// The locator's first state for `hint`.
pub open spec fn spec_new(hint: Option<Seq<char>>) -> LegacyDbView {
    LegacyDbView { candidates: spec_candidates(hint), found: None }
}

/// What the locator in state `l` asks next.
pub open spec fn spec_action(l: LegacyDbView) -> LegacyDbActionView {
    match l.found {
        Some(path) => LegacyDbActionView::Done(path),
        None => if l.candidates.len() > 0 {
            LegacyDbActionView::Probe(l.candidates[0])
        } else {
            LegacyDbActionView::Done(Seq::empty())
        },
    }
}

/// The state after the host said whether the probed path exists. Where no
/// probe is pending the state stays as it is.
pub open spec fn spec_step(l: LegacyDbView, present: bool) -> LegacyDbView {
    if spec_action(l) is Probe {
        if present {
            LegacyDbView { found: Some(l.candidates[0]), ..l }
        } else {
            LegacyDbView { candidates: l.candidates.drop_first(), ..l }
        }
    } else {
        l
    }
}

/// The database of an earlier installation, given the hint and what is on
/// disk.
pub open spec fn spec_resolve_legacy_db_path(fs: FsModel, hint: Option<Seq<char>>) -> Seq<char> {
    match spec_first_present(fs, spec_candidates(hint)) {
        Some(path) => path,
        None => Seq::empty(),
    }
}

/// The answer that a locator in state `l` ends with.
pub open spec fn spec_outcome(fs: FsModel, l: LegacyDbView) -> Seq<char> {
    match l.found {
        Some(path) => path,
        None => match spec_first_present(fs, l.candidates) {
            Some(path) => path,
            None => Seq::empty(),
        },
    }
}

/// The locator's state after `steps` probes answered by `fs`.
pub open spec fn spec_run(fs: FsModel, l: LegacyDbView, steps: nat) -> LegacyDbView
    decreases steps,
{
    if steps == 0 {
        l
    } else {
        let present = match spec_action(l) {
            LegacyDbActionView::Probe(path) => fs.is_present(path),
            LegacyDbActionView::Done(_) => false,
        };
        spec_run(fs, spec_step(l, present), (steps - 1) as nat)
    }
}

impl LegacyDbLocator {
    /// The locator's first state for the hint variable's value.
    pub fn new(hint: Option<&str>) -> (locator: LegacyDbLocator)
        ensures
            locator@ == spec_new(
                match hint {
                    Some(raw) => Some(raw@),
                    None => None,
                },
            ),
    {
        let mut candidates: Vec<String> = Vec::new();
        if let Some(raw) = hint {
            let trimmed = trim(raw);
            if !trimmed.as_str().is_empty() {
                candidates.push(trimmed);
            }
        }
        candidates.push(LEGACY_DB_PRIMARY.to_owned());
        candidates.push(LEGACY_DB_SECONDARY.to_owned());
        let locator = LegacyDbLocator { candidates, found: None };
        assert(locator@.candidates =~= spec_candidates(
            match hint {
                Some(raw) => Some(raw@),
                None => None,
            },
        ));
        locator
    }

    /// What the locator asks next.
    pub fn action(&self) -> (action: LegacyDbAction)
        ensures
            action@ == spec_action(self@),
    {
        match &self.found {
            Some(path) => LegacyDbAction::Done(path.clone()),
            None => if self.candidates.len() > 0 {
                LegacyDbAction::Probe(self.candidates[0].clone())
            } else {
                LegacyDbAction::Done(String::new())
            },
        }
    }

    /// The state after the host said whether the probed path exists.
    pub fn step(self, present: bool) -> (next: LegacyDbLocator)
        ensures
            next@ == spec_step(self@, present),
    {
        let LegacyDbLocator { candidates, found } = self;
        let mut candidates = candidates;
        if found.is_none() && candidates.len() > 0 {
            if present {
                let path = candidates[0].clone();
                LegacyDbLocator { candidates, found: Some(path) }
            } else {
                let ghost before = candidates@;
                candidates.remove(0);
                assert(spec_path_views(candidates@) =~= spec_path_views(before).drop_first());
                LegacyDbLocator { candidates, found }
            }
        } else {
            LegacyDbLocator { candidates, found }
        }
    }
}

/// A run against `fs` leaves the locator's final answer as it was.
pub proof fn lemma_run_keeps_outcome(fs: FsModel, l: LegacyDbView, steps: nat)
    ensures
        spec_outcome(fs, spec_run(fs, l, steps)) == spec_outcome(fs, l),
    decreases steps,
{
    if steps > 0 {
        let present = match spec_action(l) {
            LegacyDbActionView::Probe(path) => fs.is_present(path),
            LegacyDbActionView::Done(_) => false,
        };
        lemma_run_keeps_outcome(fs, spec_step(l, present), (steps - 1) as nat);
    }
}

/// A bound on the number of probes that a locator in state `l` still asks
/// for.
pub open spec fn spec_remaining(l: LegacyDbView) -> nat {
    if l.found is Some {
        0
    } else {
        l.candidates.len()
    }
}

/// The locator is done after at most `spec_remaining` probes.
pub proof fn lemma_run_finishes(fs: FsModel, l: LegacyDbView, steps: nat)
    requires
        steps >= spec_remaining(l),
    ensures
        spec_action(spec_run(fs, l, steps)) is Done,
    decreases steps,
{
    if steps > 0 {
        let present = match spec_action(l) {
            LegacyDbActionView::Probe(path) => fs.is_present(path),
            LegacyDbActionView::Done(_) => false,
        };
        lemma_run_finishes(fs, spec_step(l, present), (steps - 1) as nat);
    }
}

/// Asked three times, the locator reports the first of its candidates that
/// exists, and the empty text where none does.
pub proof fn lemma_locator_resolves(fs: FsModel, hint: Option<Seq<char>>, steps: nat)
    requires
        steps >= 3,
    ensures
        spec_action(spec_run(fs, spec_new(hint), steps)) == LegacyDbActionView::Done(
            spec_resolve_legacy_db_path(fs, hint),
        ),
{
    lemma_run_finishes(fs, spec_new(hint), steps);
    lemma_run_keeps_outcome(fs, spec_new(hint), steps);
}

} // verus!
