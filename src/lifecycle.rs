use crate::entity_tag::{copy_opt_tag, opt_tag_view, EntityTag};
use crate::error::RemoteError;
use crate::unleash_client::ClientFeaturesResponse;
use unleash_types::client_features::ClientFeatures;
use vstd::prelude::*;

verus! {

/// Where the background loop stands when it asks what to do next.
#[derive(Debug, Clone, Copy, PartialEq, Eq, Structural)]
pub enum Phase {
    /// The registration call has returned.
    Registered,
    /// A refresh cycle, with its metrics report, has completed.
    CycleDone,
    /// The pause between two cycles is over.
    Woke,
}

/// The kinds of work the loop can be told to do.
#[derive(Debug, Clone, Copy, PartialEq, Eq, Structural)]
pub enum Step {
    Register,
    Fetch,
    Sleep,
    Halt,
}

/// What the loop does next.
#[derive(Debug)]
pub enum LoopAction {
    /// Announce this instance to the server.
    Register,
    /// Request the features, sending this tag as `If-None-Match` when present.
    Fetch(Option<EntityTag>),
    /// Pause for the refresh interval.
    Sleep,
    /// Leave the loop.
    Halt,
}

pub open spec fn step_of(a: LoopAction) -> Step {
    match a {
        LoopAction::Register => Step::Register,
        LoopAction::Fetch(_) => Step::Fetch,
        LoopAction::Sleep => Step::Sleep,
        LoopAction::Halt => Step::Halt,
    }
}

/// The state of the refresh loop: the last tag the server gave, whether the
/// loop is to keep running, whether a loop is active, and whether metrics are
/// reported.
pub struct LifecycleView {
    pub last_tag: Option<Seq<char>>,
    pub enabled: bool,
    pub looping: bool,
    pub disable_metrics: bool,
}

/// The first step after `start`: none when a loop is already active (it goes
/// on), else register, unless metrics are off.
pub open spec fn start_step(v: LifecycleView) -> Step {
    if v.looping {
        Step::Halt
    } else if v.disable_metrics {
        Step::Fetch
    } else {
        Step::Register
    }
}

/// The step after a phase: nothing more once the loop is disabled; otherwise a
/// fetch after registration and after a pause, and a pause after a cycle.
pub open spec fn next_step(v: LifecycleView, p: Phase) -> Step {
    if !v.enabled {
        Step::Halt
    } else {
        match p {
            Phase::Registered => Step::Fetch,
            Phase::CycleDone => Step::Sleep,
            Phase::Woke => Step::Fetch,
        }
    }
}

/// The state after the loop asks what follows a phase: the loop is no longer
/// active once told to halt.
pub open spec fn after_phase(v: LifecycleView, p: Phase) -> LifecycleView {
    if next_step(v, p) == Step::Halt {
        LifecycleView { looping: false, ..v }
    } else {
        v
    }
}

/// The state after `start`.
pub open spec fn started(v: LifecycleView) -> LifecycleView {
    LifecycleView { enabled: true, looping: true, ..v }
}

/// The state after `stop`.
pub open spec fn stopped(v: LifecycleView) -> LifecycleView {
    LifecycleView { enabled: false, ..v }
}

/// The last known tag after a fetch: replaced (or cleared) by new data, kept
/// otherwise.
pub open spec fn tag_after(
    tag: Option<Seq<char>>,
    result: Result<ClientFeaturesResponse, RemoteError>,
) -> Option<Seq<char>> {
    match result {
        Ok(ClientFeaturesResponse::Updated(_, t)) => opt_tag_view(t),
        _ => tag,
    }
}

/// Whether a fetch result brings a dataset to ingest.
pub open spec fn ingests(result: Result<ClientFeaturesResponse, RemoteError>) -> bool {
    result matches Ok(ClientFeaturesResponse::Updated(_, _))
}

/// The last known tag after a run of fetch results, in order.
pub open spec fn tag_after_all(
    tag: Option<Seq<char>>,
    results: Seq<Result<ClientFeaturesResponse, RemoteError>>,
) -> Option<Seq<char>>
    decreases results.len(),
{
    if results.len() == 0 {
        tag
    } else {
        tag_after_all(tag_after(tag, results[0]), results.drop_first())
    }
}

/// What to do with the result of one fetch.
pub struct RefreshPlan {
    /// The dataset to hand to the evaluation engine, if any.
    pub dataset: Option<ClientFeatures>,
    /// Whether to take the engine's accumulated metrics for reporting.
    pub extract_metrics: bool,
}

/// The decisions of the refresh loop.
pub struct Lifecycle {
    last_tag: Option<EntityTag>,
    enabled: bool,
    looping: bool,
    disable_metrics: bool,
}

impl View for Lifecycle {
    type V = LifecycleView;

    closed spec fn view(&self) -> LifecycleView {
        LifecycleView {
            last_tag: opt_tag_view(self.last_tag),
            enabled: self.enabled,
            looping: self.looping,
            disable_metrics: self.disable_metrics,
        }
    }
}

impl Lifecycle {
    /// A stopped loop that knows no tag yet.
    pub fn new(disable_metrics: bool) -> (r: Lifecycle)
        ensures
            r@ == (LifecycleView { last_tag: None, enabled: false, looping: false, disable_metrics }),
    {
        Lifecycle { last_tag: None, enabled: false, looping: false, disable_metrics }
    }

    /// Whether the loop is to keep running.
    pub fn is_enabled(&self) -> (r: bool)
        ensures
            r == self@.enabled,
    {
        self.enabled
    }

    /// Whether metrics are reported.
    pub fn metrics_disabled(&self) -> (r: bool)
        ensures
            r == self@.disable_metrics,
    {
        self.disable_metrics
    }

    /// The last tag the server gave, if any.
    pub fn known_tag(&self) -> (r: Option<EntityTag>)
        ensures
            opt_tag_view(r) == self@.last_tag,
    {
        copy_opt_tag(&self.last_tag)
    }

    /// Marks the loop as running and says how it begins: with a registration,
    /// unless metrics are off, else with a fetch. When a loop is already
    /// active, it only confirms that it keeps running, and the caller halts.
    pub fn start(&mut self) -> (r: LoopAction)
        ensures
            final(self)@ == started(old(self)@),
            step_of(r) == start_step(old(self)@),
            r matches LoopAction::Fetch(t) ==> opt_tag_view(t) == final(self)@.last_tag,
    {
        self.enabled = true;
        if self.looping {
            return LoopAction::Halt;
        }
        self.looping = true;
        if self.disable_metrics {
            LoopAction::Fetch(copy_opt_tag(&self.last_tag))
        } else {
            LoopAction::Register
        }
    }

    /// Marks the loop as stopped. Work in flight finishes; nothing new starts.
    pub fn stop(&mut self)
        ensures
            final(self)@ == stopped(old(self)@),
    {
        self.enabled = false;
    }

    /// The next action after a phase of the loop.
    pub fn next_action(&mut self, phase: Phase) -> (r: LoopAction)
        ensures
            step_of(r) == next_step(old(self)@, phase),
            final(self)@ == after_phase(old(self)@, phase),
            r matches LoopAction::Fetch(t) ==> opt_tag_view(t) == old(self)@.last_tag,
    {
        if !self.enabled {
            self.looping = false;
            LoopAction::Halt
        } else {
            match phase {
                Phase::Registered => LoopAction::Fetch(copy_opt_tag(&self.last_tag)),
                Phase::CycleDone => LoopAction::Sleep,
                Phase::Woke => LoopAction::Fetch(copy_opt_tag(&self.last_tag)),
            }
        }
    }

    /// Takes in the result of a fetch. New data replaces the known tag (or
    /// clears it, when the server gave none) and is to be ingested; "not
    /// modified" changes nothing; metrics are taken unless the fetch failed.
    pub fn on_fetch(&mut self, result: Result<ClientFeaturesResponse, RemoteError>) -> (r:
        RefreshPlan)
        ensures
            final(self)@ == (LifecycleView {
                last_tag: tag_after(old(self)@.last_tag, result),
                ..old(self)@
            }),
            r.dataset is Some <==> ingests(result),
            result matches Ok(ClientFeaturesResponse::Updated(f, _)) ==> r.dataset == Some(f),
            r.extract_metrics == result is Ok,
    {
        match result {
            Ok(ClientFeaturesResponse::NoUpdate(_)) => RefreshPlan {
                dataset: None,
                extract_metrics: true,
            },
            Ok(ClientFeaturesResponse::Updated(features, tag)) => {
                self.last_tag = tag;
                RefreshPlan { dataset: Some(features), extract_metrics: true }
            },
            Err(_) => RefreshPlan { dataset: None, extract_metrics: false },
        }
    }

    /// Whether to send a metrics bucket: only when there is one and metrics
    /// are on.
    pub fn should_send_metrics(&self, has_bucket: bool) -> (r: bool)
        ensures
            r == (has_bucket && !self@.disable_metrics),
    {
        has_bucket && !self.disable_metrics
    }
}

/// When the server answers every fetch with "not modified", the known tag
/// stays as it was and no dataset is ever ingested, however many cycles run.
pub proof fn lemma_not_modified_is_idempotent(
    tag: Option<Seq<char>>,
    results: Seq<Result<ClientFeaturesResponse, RemoteError>>,
)
    requires
        forall|i: int|
            0 <= i < results.len() ==> #[trigger] results[i] matches Ok(
                ClientFeaturesResponse::NoUpdate(_),
            ),
    ensures
        tag_after_all(tag, results) == tag,
        forall|i: int| 0 <= i < results.len() ==> !ingests(#[trigger] results[i]),
    decreases results.len(),
{
    if results.len() > 0 {
        let rest = results.drop_first();
        assert forall|i: int| 0 <= i < rest.len() implies #[trigger] rest[i] matches Ok(
            ClientFeaturesResponse::NoUpdate(_),
        ) by {
            assert(rest[i] == results[i + 1]);
        }
        lemma_not_modified_is_idempotent(tag, rest);
    }
}

/// Once stopped, the loop starts no further fetch, registration or report:
/// whatever phase ends next, and whatever a fetch in flight brings back, the
/// next step is to halt, after which no loop is active.
pub proof fn lemma_stop_halts(
    v: LifecycleView,
    p: Phase,
    result: Result<ClientFeaturesResponse, RemoteError>,
)
    ensures
        next_step(stopped(v), p) == Step::Halt,
        next_step(
            LifecycleView { last_tag: tag_after(stopped(v).last_tag, result), ..stopped(v) },
            p,
        ) == Step::Halt,
        !after_phase(stopped(v), p).looping,
{
}

/// After new data tagged `t`, a running loop's next fetch carries `t` (the
/// fetch action holds the known tag), and a "not modified" answer to it keeps
/// `t` and brings nothing to ingest.
pub proof fn lemma_fetch_carries_last_tag(
    v: LifecycleView,
    updated: Result<ClientFeaturesResponse, RemoteError>,
    not_modified: Result<ClientFeaturesResponse, RemoteError>,
)
    requires
        v.enabled,
        updated matches Ok(ClientFeaturesResponse::Updated(_, Some(_))),
        not_modified matches Ok(ClientFeaturesResponse::NoUpdate(_)),
    ensures
        ({
            let w = LifecycleView { last_tag: tag_after(v.last_tag, updated), ..v };
            &&& w.last_tag is Some
            &&& ingests(updated)
            &&& next_step(w, Phase::Woke) == Step::Fetch
            &&& tag_after(w.last_tag, not_modified) == w.last_tag
            &&& !ingests(not_modified)
        }),
{
}

/// Starting a loop that is already active runs no second loop: the state is
/// running, and the caller is told to halt.
pub proof fn lemma_start_is_reentrant(v: LifecycleView)
    requires
        v.looping,
    ensures
        start_step(v) == Step::Halt,
        started(v).enabled,
        started(v).looping,
{
}

} // verus!
