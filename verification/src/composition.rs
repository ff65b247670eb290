//! What the start launches, stated against a model of the file system: the
//! command that the orchestrator takes from its locator is the one that the
//! resolution names, and the earlier database that it passes on is the first
//! candidate that exists.

use crate::error::BootstrapErrorView;
use crate::legacy;
use crate::legacy::LegacyDbActionView;
use crate::locator;
use crate::locator::{BackendCommandView, LocatorEventView};
use crate::orchestrator::{spec_step, OrchestratorView, StageView, StartupEventView};
use crate::resolution;
use crate::resolution::FsModel;
use vstd::prelude::*;

verus! {

/// A locator's event as the orchestrator receives it.
pub open spec fn spec_from_locator<H>(event: LocatorEventView) -> StartupEventView<H> {
    match event {
        LocatorEventView::Exists(present) => StartupEventView::Exists(present),
        LocatorEventView::Listing(listing) => StartupEventView::Listing(listing),
    }
}

/// Whether the orchestrator in state `o` is on its way to `outcome`: its
/// locator still ends with it, or the start has gone on with that command,
/// or has given up with that error.
pub open spec fn spec_heads_for<H>(
    fs: FsModel,
    o: OrchestratorView<H>,
    outcome: Result<BackendCommandView, BootstrapErrorView>,
) -> bool {
    match o.stage {
        StageView::Locating(l) => resolution::spec_outcome(fs, l) == outcome,
        StageView::OpeningStdoutLog => outcome == Ok::<BackendCommandView, BootstrapErrorView>(
            o.command,
        ),
        StageView::Degrading => o.error is Some && outcome == Err::<
            BackendCommandView,
            BootstrapErrorView,
        >(o.error->0),
        _ => false,
    }
}

/// Whether the orchestrator in state `o` is on its way to the earlier
/// database `path`: its locator still ends with it, or the start has gone on
/// to the launch with it.
pub open spec fn spec_heads_for_legacy<H>(
    fs: FsModel,
    o: OrchestratorView<H>,
    path: Seq<char>,
) -> bool {
    match o.stage {
        StageView::ResolvingLegacyDb(l) => legacy::spec_outcome(fs, l) == path,
        StageView::Spawning => o.legacy_db_path == path,
        _ => false,
    }
}

/// Once a port is reserved, the start is on its way to the command that the
/// resolution names for the host's inputs, whatever port it was.
pub proof fn lemma_reserved_port_starts_resolution<H>(
    fs: FsModel,
    o: OrchestratorView<H>,
    port: u16,
)
    requires
        o.stage is ReservingPort,
    ensures
        spec_heads_for(
            fs,
            spec_step(o, StartupEventView::PortReserved(Ok(port))).0,
            resolution::spec_resolve(fs, o.inputs.backend),
        ),
        spec_step(o, StartupEventView::PortReserved(Ok(port))).0.port == port,
{
    let first = locator::spec_new(o.inputs.backend);
    resolution::lemma_initial_outcome(fs, o.inputs.backend);
    resolution::lemma_done_is_outcome(fs, first);
}

/// While the file system answers the locator's questions, the start stays on
/// its way to the same command or error.
pub proof fn lemma_locating_keeps_course<H>(fs: FsModel, o: OrchestratorView<H>)
    requires
        o.stage is Locating,
    ensures
        spec_heads_for(
            fs,
            spec_step(
                o,
                spec_from_locator::<H>(fs.answer(locator::spec_action(o.stage->Locating_0))),
            ).0,
            resolution::spec_outcome(fs, o.stage->Locating_0),
        ),
{
    let l = o.stage->Locating_0;
    let after = locator::spec_step(l, fs.answer(locator::spec_action(l)));
    resolution::lemma_step_keeps_outcome(fs, l);
    resolution::lemma_done_is_outcome(fs, after);
}

/// Once both logs are open, the start is on its way to the earlier database
/// that the hint and the file system name.
pub proof fn lemma_opened_logs_start_legacy<H>(fs: FsModel, o: OrchestratorView<H>)
    requires
        o.stage is OpeningStderrLog,
    ensures
        spec_heads_for_legacy(
            fs,
            spec_step(o, StartupEventView::LogOpened(Ok(()))).0,
            legacy::spec_resolve_legacy_db_path(fs, o.inputs.legacy_db_hint),
        ),
{
}

/// While the file system answers the probes for the earlier database, the
/// start stays on its way to the same path.
pub proof fn lemma_legacy_keeps_course<H>(fs: FsModel, o: OrchestratorView<H>)
    requires
        o.stage is ResolvingLegacyDb,
        legacy::spec_action(o.stage->ResolvingLegacyDb_0) is Probe,
    ensures
        spec_heads_for_legacy(
            fs,
            spec_step(
                o,
                StartupEventView::Exists(
                    fs.is_present(legacy::spec_action(o.stage->ResolvingLegacyDb_0)->Probe_0),
                ),
            ).0,
            legacy::spec_outcome(fs, o.stage->ResolvingLegacyDb_0),
        ),
{
    let l = o.stage->ResolvingLegacyDb_0;
    let path = l.candidates[0];
    let after = legacy::spec_step(l, fs.is_present(path));
    if fs.is_present(path) {
        assert(resolution::spec_first_present(fs, l.candidates) == Some(path));
        assert(legacy::spec_action(after) == LegacyDbActionView::Done(path));
    } else {
        assert(after.candidates == l.candidates.drop_first());
        assert(resolution::spec_first_present(fs, l.candidates)
            == resolution::spec_first_present(fs, after.candidates));
        if after.candidates.len() == 0 {
            assert(resolution::spec_first_present(fs, after.candidates) is None);
        }
    }
    assert(legacy::spec_outcome(fs, after) == legacy::spec_outcome(fs, l));
}

} // verus!
