//! Waiting for the backend to report ready.
//!
//! The prober asks for one request at a time against the health address and,
//! after every answer but a ready one, for one pause of a fixed length. Time
//! is counted in pauses, not read from a clock: the wait is over when the
//! pauses taken add up to the limit.

use crate::paths::{health_url, spec_health_url};
use vstd::prelude::*;
use vstd::string::*;

verus! {

/// The pause between two requests, in milliseconds.
pub const POLL_INTERVAL_MS: u64 = 300;

/// The status with which the backend reports ready.
pub const READY_STATUS: u16 = 200;

/// Where the prober stands.
#[derive(Clone, Copy, Debug, PartialEq, Eq, Structural)]
pub enum ProbePhase {
    /// A request is due, or under way.
    Polling,
    /// A pause is due, or under way.
    Pausing,
    /// The wait is over, with this verdict.
    Finished(bool),
}

/// What the prober asks of the host, or its verdict.
#[derive(Clone, Debug, PartialEq, Eq)]
pub enum ProbeAction {
    /// Issue a GET request to this address.
    Get(String),
    /// Sleep for this many milliseconds.
    Sleep(u64),
    /// Nothing more to ask: the backend is ready, or the wait ran out.
    Done(bool),
}

/// A `ProbeAction` as a mathematical value.
pub ghost enum ProbeActionView {
    Get(Seq<char>),
    Sleep(nat),
    Done(bool),
}

impl View for ProbeAction {
    type V = ProbeActionView;

    open spec fn view(&self) -> ProbeActionView {
        match *self {
            ProbeAction::Get(url) => ProbeActionView::Get(url@),
            ProbeAction::Sleep(ms) => ProbeActionView::Sleep(ms as nat),
            ProbeAction::Done(ready) => ProbeActionView::Done(ready),
        }
    }
}

/// What the host observed.
#[derive(Clone, Copy, Debug, PartialEq, Eq, Structural)]
pub enum ProbeEvent {
    /// The request's outcome: the status of the response, or `None` where the
    /// request failed.
    Response(Option<u16>),
    /// The pause is over.
    Woke,
}

/// The prober's state.
#[derive(Debug)]
pub struct HealthProber {
    api_base: String,
    max_wait_ms: u64,
    pauses: u64,
    phase: ProbePhase,
}

/// A `HealthProber` as a mathematical value.
pub ghost struct HealthProberView {
    pub api_base: Seq<char>,
    pub max_wait_ms: nat,
    pub pauses: nat,
    pub phase: ProbePhase,
}

impl HealthProberView {
    /// The time spent pausing so far, in milliseconds.
    pub open spec fn elapsed_ms(self) -> nat {
        self.pauses * POLL_INTERVAL_MS as nat
    }

    /// What holds of every state that the prober reaches: while it is at work,
    /// and when it found the backend ready, the limit was not reached; when it
    /// gave up, the limit was reached by less than one pause.
    pub open spec fn wf(self) -> bool {
        match self.phase {
            ProbePhase::Polling | ProbePhase::Pausing | ProbePhase::Finished(true) =>
                self.elapsed_ms() < self.max_wait_ms,
            ProbePhase::Finished(false) => self.max_wait_ms <= self.elapsed_ms()
                < self.max_wait_ms + POLL_INTERVAL_MS,
        }
    }
}

/// Whether a request's outcome says that the backend is ready.
pub open spec fn spec_is_ready(status: Option<u16>) -> bool {
    status == Some(READY_STATUS)
}

/// The prober's first state.
pub open spec fn spec_new(api_base: Seq<char>, max_wait_ms: nat) -> HealthProberView {
    HealthProberView {
        api_base,
        max_wait_ms,
        pauses: 0,
        phase: if 0 < max_wait_ms {
            ProbePhase::Polling
        } else {
            ProbePhase::Finished(false)
        },
    }
}

/// What the prober in state `p` asks next.
pub open spec fn spec_action(p: HealthProberView) -> ProbeActionView {
    match p.phase {
        ProbePhase::Polling => ProbeActionView::Get(spec_health_url(p.api_base)),
        ProbePhase::Pausing => ProbeActionView::Sleep(POLL_INTERVAL_MS as nat),
        ProbePhase::Finished(ready) => ProbeActionView::Done(ready),
    }
}

/// The state after `event`: a ready response ends the wait; any other outcome
/// of a request is followed by a pause; after a pause the next request is due
/// unless the limit is reached. An event that does not answer the pending
/// question leaves the state as it is.
pub open spec fn spec_step(p: HealthProberView, event: ProbeEvent) -> HealthProberView {
    match (p.phase, event) {
        (ProbePhase::Polling, ProbeEvent::Response(status)) => if spec_is_ready(status) {
            HealthProberView { phase: ProbePhase::Finished(true), ..p }
        } else {
            HealthProberView { phase: ProbePhase::Pausing, ..p }
        },
        (ProbePhase::Pausing, ProbeEvent::Woke) => {
            let pauses = p.pauses + 1;
            HealthProberView {
                pauses,
                phase: if pauses * POLL_INTERVAL_MS < p.max_wait_ms {
                    ProbePhase::Polling
                } else {
                    ProbePhase::Finished(false)
                },
                ..p
            }
        },
        _ => p,
    }
}

impl View for HealthProber {
    type V = HealthProberView;

    closed spec fn view(&self) -> HealthProberView {
        HealthProberView {
            api_base: self.api_base@,
            max_wait_ms: self.max_wait_ms as nat,
            pauses: self.pauses as nat,
            phase: self.phase,
        }
    }
}

impl HealthProber {
    #[verifier::type_invariant]
    spec fn well_formed(self) -> bool {
        self@.wf()
    }

    /// A prober for the backend at `api_base` that gives up once its pauses
    /// add up to `max_wait_ms`.
    pub fn new(api_base: &str, max_wait_ms: u64) -> (prober: HealthProber)
        ensures
            prober@ == spec_new(api_base@, max_wait_ms as nat),
    {
        let phase = if 0 < max_wait_ms {
            ProbePhase::Polling
        } else {
            ProbePhase::Finished(false)
        };
        HealthProber { api_base: api_base.to_owned(), max_wait_ms, pauses: 0, phase }
    }

    /// What the prober asks next.
    pub fn action(&self) -> (action: ProbeAction)
        ensures
            action@ == spec_action(self@),
    {
        match self.phase {
            ProbePhase::Polling => ProbeAction::Get(health_url(self.api_base.as_str())),
            ProbePhase::Pausing => ProbeAction::Sleep(POLL_INTERVAL_MS),
            ProbePhase::Finished(ready) => ProbeAction::Done(ready),
        }
    }

    /// The time spent pausing so far, in milliseconds.
    pub fn elapsed_ms(&self) -> (elapsed: u128)
        ensures
            elapsed == self@.elapsed_ms(),
    {
        self.pauses as u128 * POLL_INTERVAL_MS as u128
    }

    /// The state after `event`.
    pub fn step(self, event: ProbeEvent) -> (next: HealthProber)
        ensures
            next@ == spec_step(self@, event),
    {
        proof {
            use_type_invariant(&self);
        }
        let HealthProber { api_base, max_wait_ms, pauses, phase } = self;
        match (phase, event) {
            (ProbePhase::Polling, ProbeEvent::Response(status)) => {
                let ready = match status {
                    Some(code) => code == READY_STATUS,
                    None => false,
                };
                let phase = if ready {
                    ProbePhase::Finished(true)
                } else {
                    ProbePhase::Pausing
                };
                HealthProber { api_base, max_wait_ms, pauses, phase }
            },
            (ProbePhase::Pausing, ProbeEvent::Woke) => {
                let pauses: u64 = pauses + 1;
                let phase = if (pauses as u128) * (POLL_INTERVAL_MS as u128) < (
                max_wait_ms as u128) {
                    ProbePhase::Polling
                } else {
                    ProbePhase::Finished(false)
                };
                HealthProber { api_base, max_wait_ms, pauses, phase }
            },
            _ => HealthProber { api_base, max_wait_ms, pauses, phase },
        }
    }
}

/// The prober's first state is well formed.
pub proof fn lemma_new_wf(api_base: Seq<char>, max_wait_ms: nat)
    ensures
        spec_new(api_base, max_wait_ms).wf(),
{
}

/// Every event leaves a well-formed prober well formed: it never reports
/// ready after the limit, and never gives up before the limit or a whole
/// pause after it.
pub proof fn lemma_step_wf(p: HealthProberView, event: ProbeEvent)
    requires
        p.wf(),
    ensures
        spec_step(p, event).wf(),
{
}

/// A backend that answers the first request with the ready status is
/// reported ready at once, before any pause.
pub proof fn lemma_ready_at_once(api_base: Seq<char>, max_wait_ms: nat)
    requires
        0 < max_wait_ms,
    ensures
        spec_action(spec_new(api_base, max_wait_ms)) == ProbeActionView::Get(
            spec_health_url(api_base),
        ),
        spec_action(
            spec_step(spec_new(api_base, max_wait_ms), ProbeEvent::Response(Some(READY_STATUS))),
        ) == ProbeActionView::Done(true),
        spec_step(
            spec_new(api_base, max_wait_ms),
            ProbeEvent::Response(Some(READY_STATUS)),
        ).elapsed_ms() == 0,
{
}

/// The state after one request for each of `outcomes`, each followed by its
/// pause.
pub open spec fn spec_run_unready(
    p: HealthProberView,
    outcomes: Seq<Option<u16>>,
) -> HealthProberView
    decreases outcomes.len(),
{
    if outcomes.len() == 0 {
        p
    } else {
        spec_run_unready(
            spec_step(spec_step(p, ProbeEvent::Response(outcomes[0])), ProbeEvent::Woke),
            outcomes.drop_first(),
        )
    }
}

/// The number of requests after which a wait of `max_wait_ms` runs out.
pub open spec fn spec_rounds(max_wait_ms: nat) -> nat {
    ((max_wait_ms + POLL_INTERVAL_MS - 1) / POLL_INTERVAL_MS as int) as nat
}

/// While no request finds the backend ready, failed requests and responses
/// with another status alike, the prober goes on: after `outcomes.len()`
/// rounds it has paused that many times, and it has given up exactly when the
/// pauses add up to the limit.
pub proof fn lemma_unready_rounds(p: HealthProberView, outcomes: Seq<Option<u16>>)
    requires
        p.wf(),
        p.phase == ProbePhase::Polling,
        (p.pauses + outcomes.len()) * POLL_INTERVAL_MS < p.max_wait_ms + POLL_INTERVAL_MS,
        forall|i: int| 0 <= i < outcomes.len() ==> !spec_is_ready(#[trigger] outcomes[i]),
    ensures
        spec_run_unready(p, outcomes).pauses == p.pauses + outcomes.len(),
        spec_run_unready(p, outcomes).max_wait_ms == p.max_wait_ms,
        spec_run_unready(p, outcomes).phase == if (p.pauses + outcomes.len()) * POLL_INTERVAL_MS
            < p.max_wait_ms {
            ProbePhase::Polling
        } else {
            ProbePhase::Finished(false)
        },
    decreases outcomes.len(),
{
    if outcomes.len() > 0 {
        let next = spec_step(spec_step(p, ProbeEvent::Response(outcomes[0])), ProbeEvent::Woke);
        assert(next.pauses == p.pauses + 1);
        lemma_step_wf(p, ProbeEvent::Response(outcomes[0]));
        lemma_step_wf(spec_step(p, ProbeEvent::Response(outcomes[0])), ProbeEvent::Woke);
        if outcomes.len() > 1 {
            assert(next.phase == ProbePhase::Polling);
            lemma_unready_rounds(next, outcomes.drop_first());
        } else {
            assert(outcomes.drop_first().len() == 0);
            assert(spec_run_unready(next, outcomes.drop_first()) == next);
        }
    }
}

/// Against a backend that never reports ready the prober gives up after
/// `spec_rounds` requests, having paused for the limit rounded up to whole
/// pauses.
pub proof fn lemma_never_ready(
    api_base: Seq<char>,
    max_wait_ms: nat,
    outcomes: Seq<Option<u16>>,
)
    requires
        0 < max_wait_ms,
        outcomes.len() == spec_rounds(max_wait_ms),
        forall|i: int| 0 <= i < outcomes.len() ==> !spec_is_ready(#[trigger] outcomes[i]),
    ensures
        spec_action(spec_run_unready(spec_new(api_base, max_wait_ms), outcomes))
            == ProbeActionView::Done(false),
        max_wait_ms <= spec_run_unready(spec_new(api_base, max_wait_ms), outcomes).elapsed_ms()
            < max_wait_ms + POLL_INTERVAL_MS,
{
    lemma_unready_rounds(spec_new(api_base, max_wait_ms), outcomes);
}

} // verus!
