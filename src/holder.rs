use crate::dataset::{sanitize_dataset, SafeDataset};
use crate::unleash::{filled, opt_str_view, UnleashConfig};
use std::collections::HashMap;
use unleash_types::client_features::{ClientFeatures, Context};
use unleash_types::client_metrics::MetricBucket;
use unleash_yggdrasil::{EngineState, EvalWarning, ExtendedVariantDef, ResolvedToggle, UpdateMessage};
use vstd::prelude::*;
use vstd::rwlock::RwLock;

verus! {

/// The evaluation engine and its working state.
#[verifier::external_type_specification]
#[verifier::external_body]
pub struct ExEngineState(EngineState);

/// The attributes a flag is evaluated against; its fields are all public.
#[verifier::external_type_specification]
pub struct ExContext(Context);

/// A variant as the engine resolves it.
#[verifier::external_type_specification]
#[verifier::external_body]
pub struct ExExtendedVariantDef(ExtendedVariantDef);

/// A flag as the engine resolves it for a context.
#[verifier::external_type_specification]
#[verifier::external_body]
pub struct ExResolvedToggle(ResolvedToggle);

/// Counts of evaluations accumulated by the engine.
#[verifier::external_type_specification]
#[verifier::external_body]
pub struct ExMetricBucket(MetricBucket);

/// A non-fatal problem found while the engine takes in a dataset.
#[verifier::external_type_specification]
#[verifier::external_body]
pub struct ExEvalWarning(EvalWarning);

/// The engine, with a ghost record of whether every dataset it was given
/// passed `sanitize_dataset`. Only this module touches its fields.
pub struct CheckedEngine {
    engine: EngineState,
    only_sanitized: Ghost<bool>,
}

/// Relies on `EngineState::default`: an engine with no flags.
#[verifier::external_body]
fn new_engine() -> (r: EngineState) {
    EngineState::default()
}

/// Relies on `EngineState::take_state` with a full response: the engine
/// replaces its working state with the dataset and returns its warnings, if
/// there are any.
#[verifier::external_body]
fn engine_take_state(e: &mut CheckedEngine, data: SafeDataset) -> (r: Option<Vec<EvalWarning>>)
    ensures
        r matches Some(w) ==> w@.len() > 0,
        final(e).only_sanitized == old(e).only_sanitized,
{
    e.engine.take_state(UpdateMessage::FullResponse(data.features))
}

/// Relies on `EngineState::get_metrics`, closed at the current time: the
/// counts since the last call, or none when nothing was counted.
#[verifier::external_body]
fn engine_get_metrics(e: &mut CheckedEngine) -> (r: Option<MetricBucket>)
    ensures
        final(e).only_sanitized == old(e).only_sanitized,
{
    e.engine.get_metrics(chrono::Utc::now())
}

/// Relies on `EngineState::is_enabled`, with no external values. The engine
/// draws variants (for dependencies on parent variants) only from lists that
/// passed `check_weights`, so its weight arithmetic cannot fail.
#[verifier::external_body]
fn engine_is_enabled(e: &CheckedEngine, name: &str, context: &Context) -> (r: bool)
    requires
        e.only_sanitized@,
{
    e.engine.is_enabled(name, context, &None)
}

/// Relies on `EngineState::get_variant`, with no external values. The engine
/// draws variants only from lists that passed `check_weights`.
#[verifier::external_body]
fn engine_get_variant(e: &CheckedEngine, name: &str, context: &Context) -> (r:
    ExtendedVariantDef)
    requires
        e.only_sanitized@,
{
    e.engine.get_variant(name, context, &None)
}

/// Relies on `EngineState::resolve_all`, with no external values. The engine
/// draws variants only from lists that passed `check_weights`.
#[verifier::external_body]
fn engine_resolve_all(e: &CheckedEngine, context: &Context) -> (r: Option<
    HashMap<String, ResolvedToggle>,
>)
    requires
        e.only_sanitized@,
{
    e.engine.resolve_all(context, &None)
}

/// `after` is `before` enriched with an application name and environment:
/// each is the caller's value where set, else the given one, and every other
/// field is unchanged.
pub open spec fn is_enriched(
    before: Context,
    after: Context,
    app_name: Seq<char>,
    environment: Seq<char>,
) -> bool {
    &&& opt_str_view(after.app_name) == filled(opt_str_view(before.app_name), app_name)
    &&& opt_str_view(after.environment) == filled(opt_str_view(before.environment), environment)
    &&& after.user_id == before.user_id
    &&& after.session_id == before.session_id
    &&& after.current_time == before.current_time
    &&& after.remote_address == before.remote_address
    &&& after.properties == before.properties
}

/// The lock holds only engines that were given sanitized datasets alone.
pub closed spec fn sanitized_engine() -> spec_fn(CheckedEngine) -> bool {
    |e: CheckedEngine| e.only_sanitized@
}

/// Owns the evaluation engine. Reads share the lock; taking in a dataset or
/// draining the metrics holds it alone, with the engine moved out of the lock
/// until the work is done, so that no read sees a state in between.
pub struct EvaluationHolder {
    app_name: String,
    environment: String,
    engine: RwLock<CheckedEngine, spec_fn(CheckedEngine) -> bool>,
}

impl EvaluationHolder {
    /// The lock admits only engines given sanitized datasets.
    #[verifier::type_invariant]
    spec fn lock_holds_sanitized(&self) -> bool {
        self.engine.pred() == sanitized_engine()
    }

    /// An empty engine, evaluating with the configured identity.
    pub fn new(config: &UnleashConfig) -> (r: EvaluationHolder)
        ensures
            r.app_name()@ == config.app_name@,
            r.environment()@ == config.environment@,
    {
        let engine = CheckedEngine { engine: new_engine(), only_sanitized: Ghost(true) };
        EvaluationHolder {
            app_name: String::from_str(config.app_name.as_str()),
            environment: String::from_str(config.environment.as_str()),
            engine: RwLock::new(engine, Ghost(sanitized_engine())),
        }
    }

    /// The application name filled into contexts.
    pub closed spec fn app_name(&self) -> String {
        self.app_name
    }

    /// The environment filled into contexts.
    pub closed spec fn environment(&self) -> String {
        self.environment
    }

    /// Replaces the engine's state with a dataset, excluding every read and
    /// every other write meanwhile. Variant lists the engine could not draw
    /// from are dropped first (see `sanitize_dataset`). Returns the engine's
    /// warnings, if any.
    pub fn ingest(&self, features: ClientFeatures) -> (r: Option<Vec<EvalWarning>>)
        ensures
            r matches Some(w) ==> w@.len() > 0,
    {
        proof {
            use_type_invariant(self);
        }
        let (mut engine, handle) = self.engine.acquire_write();
        let warnings = engine_take_state(&mut engine, sanitize_dataset(features));
        handle.release_write(engine);
        warnings
    }

    /// Takes the counts accumulated since the last call, if any.
    pub fn extract_metrics(&self) -> Option<MetricBucket> {
        proof {
            use_type_invariant(self);
        }
        let (mut engine, handle) = self.engine.acquire_write();
        let bucket = engine_get_metrics(&mut engine);
        handle.release_write(engine);
        bucket
    }

    /// Fills in the configured application name and environment, where the
    /// context leaves them unset.
    pub fn enhance_context(&self, context: &mut Context)
        ensures
            is_enriched(*old(context), *final(context), self.app_name()@, self.environment()@),
    {
        if context.app_name.is_none() {
            context.app_name = Some(String::from_str(self.app_name.as_str()));
        }
        if context.environment.is_none() {
            context.environment = Some(String::from_str(self.environment.as_str()));
        }
    }

    /// Whether the flag is on for the context, after enriching it.
    pub fn is_enabled(&self, name: &str, context: &mut Context) -> (r: bool)
        ensures
            is_enriched(*old(context), *final(context), self.app_name()@, self.environment()@),
    {
        self.enhance_context(context);
        proof {
            use_type_invariant(self);
        }
        let read = self.engine.acquire_read();
        let r = engine_is_enabled(read.borrow(), name, context);
        read.release_read();
        r
    }

    /// The variant of the flag for the context, after enriching it.
    pub fn get_variant(&self, name: &str, context: &mut Context) -> (r: ExtendedVariantDef)
        ensures
            is_enriched(*old(context), *final(context), self.app_name()@, self.environment()@),
    {
        self.enhance_context(context);
        proof {
            use_type_invariant(self);
        }
        let read = self.engine.acquire_read();
        let r = engine_get_variant(read.borrow(), name, context);
        read.release_read();
        r
    }

    /// Every flag resolved for the context, after enriching it.
    pub fn resolve_all(&self, context: &mut Context) -> (r: Option<
        HashMap<String, ResolvedToggle>,
    >)
        ensures
            is_enriched(*old(context), *final(context), self.app_name()@, self.environment()@),
    {
        self.enhance_context(context);
        proof {
            use_type_invariant(self);
        }
        let read = self.engine.acquire_read();
        let r = engine_resolve_all(read.borrow(), context);
        read.release_read();
        r
    }
}

} // verus!
