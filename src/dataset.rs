use unleash_types::client_features::{
    ClientFeature, ClientFeatures, Constraint, Meta, Override, Payload, Query, Segment, Strategy,
    StrategyVariant, Variant, WeightType,
};
use vstd::prelude::*;

verus! {

/// The flag dataset as the server sends it.
#[verifier::external_type_specification]
pub struct ExClientFeatures(ClientFeatures);

/// One flag of the dataset (opaque: it holds dates).
#[verifier::external_type_specification]
#[verifier::external_body]
pub struct ExClientFeature(ClientFeature);

/// An activation strategy of a flag.
#[verifier::external_type_specification]
pub struct ExStrategy(Strategy);

/// A weighted variant of a flag.
#[verifier::external_type_specification]
pub struct ExVariant(Variant);

/// A weighted variant of a strategy.
#[verifier::external_type_specification]
pub struct ExStrategyVariant(StrategyVariant);

#[verifier::external_type_specification]
#[verifier::external_body]
pub struct ExSegment(Segment);

#[verifier::external_type_specification]
#[verifier::external_body]
pub struct ExMeta(Meta);

#[verifier::external_type_specification]
#[verifier::external_body]
pub struct ExConstraint(Constraint);

#[verifier::external_type_specification]
#[verifier::external_body]
pub struct ExPayload(Payload);

#[verifier::external_type_specification]
#[verifier::external_body]
pub struct ExOverride(Override);

#[verifier::external_type_specification]
#[verifier::external_body]
pub struct ExWeightType(WeightType);

/// The filter sent with every features request; the library only carries it.
#[verifier::external_type_specification]
#[verifier::external_body]
pub struct ExFeaturesQuery(Query);


/// The sum of a list of weights.
pub open spec fn weight_sum(ws: Seq<i32>) -> int
    decreases ws.len(),
{
    if ws.len() == 0 {
        0
    } else {
        weight_sum(ws.drop_last()) + ws.last()
    }
}

/// A list of variant weights that the engine can draw from: empty, or all
/// weights non-negative with a positive total that fits in `u32`.
pub open spec fn weights_ok(ws: Seq<i32>) -> bool {
    ws.len() == 0 || ((forall|i: int| 0 <= i < ws.len() ==> ws[i] >= 0) && 0 < weight_sum(ws)
        <= u32::MAX)
}

pub open spec fn variant_weights(vs: Seq<Variant>) -> Seq<i32> {
    vs.map_values(|v: Variant| v.weight)
}

pub open spec fn strategy_variant_weights(vs: Seq<StrategyVariant>) -> Seq<i32> {
    vs.map_values(|v: StrategyVariant| v.weight)
}

/// Whether an optional list of flag variants is one the engine can draw from.
pub open spec fn variants_ok(vs: Option<Vec<Variant>>) -> bool {
    match vs {
        Some(v) => weights_ok(variant_weights(v@)),
        None => true,
    }
}

/// Whether the variants of a strategy are ones the engine can draw from.
pub open spec fn strategy_ok(s: Strategy) -> bool {
    match s.variants {
        Some(v) => weights_ok(strategy_variant_weights(v@)),
        None => true,
    }
}

/// A strategy with its variants dropped when the engine could not draw from
/// them.
pub open spec fn sanitized_strategy(s: Strategy) -> Strategy {
    if strategy_ok(s) {
        s
    } else {
        Strategy { variants: None, ..s }
    }
}

/// Flag variants, dropped when the engine could not draw from them.
pub open spec fn sanitized_variants(vs: Option<Vec<Variant>>) -> Option<Vec<Variant>> {
    if variants_ok(vs) {
        vs
    } else {
        None
    }
}

/// Strategies, each with its variants dropped when the engine could not draw
/// from them.
pub open spec fn sanitized_strategies(ss: Option<Vec<Strategy>>) -> Option<Seq<Strategy>> {
    match ss {
        Some(v) => Some(v@.map_values(|s: Strategy| sanitized_strategy(s))),
        None => None,
    }
}

proof fn lemma_prefix_sum_le(ws: Seq<i32>, k: int)
    requires
        0 <= k <= ws.len(),
        forall|i: int| 0 <= i < ws.len() ==> ws[i] >= 0,
    ensures
        weight_sum(ws.subrange(0, k)) <= weight_sum(ws),
    decreases ws.len(),
{
    if k < ws.len() {
        assert(ws.drop_last().subrange(0, k) =~= ws.subrange(0, k));
        lemma_prefix_sum_le(ws.drop_last(), k);
    } else {
        assert(ws.subrange(0, k) =~= ws);
    }
}

/// Whether the engine can draw from a list of variant weights.
pub fn check_weights(ws: &Vec<i32>) -> (r: bool)
    ensures
        r == weights_ok(ws@),
{
    let n = ws.len();
    if n == 0 {
        return true;
    }
    let mut sum: u64 = 0;
    let mut i: usize = 0;
    while i < n
        invariant
            n == ws@.len(),
            i <= n,
            sum as int == weight_sum(ws@.subrange(0, i as int)),
            sum <= u32::MAX,
            forall|j: int| 0 <= j < i ==> ws@[j] >= 0,
        decreases n - i,
    {
        let w = ws[i];
        if w < 0 {
            return false;
        }
        assert(ws@.subrange(0, i + 1).drop_last() =~= ws@.subrange(0, i as int));
        sum = sum + w as u64;
        if sum > 0xFFFF_FFFF {
            proof {
                if forall|j: int| 0 <= j < ws@.len() ==> ws@[j] >= 0 {
                    lemma_prefix_sum_le(ws@, i + 1);
                }
            }
            return false;
        }
        i = i + 1;
    }
    assert(ws@.subrange(0, n as int) =~= ws@);
    sum > 0
}

fn weights_of_variants(vs: &Vec<Variant>) -> (r: Vec<i32>)
    ensures
        r@ == variant_weights(vs@),
{
    let mut r: Vec<i32> = Vec::new();
    let mut i: usize = 0;
    while i < vs.len()
        invariant
            i <= vs@.len(),
            r@ == variant_weights(vs@.subrange(0, i as int)),
        decreases vs@.len() - i,
    {
        r.push(vs[i].weight);
        i = i + 1;
        assert(r@ =~= variant_weights(vs@.subrange(0, i as int)));
    }
    assert(vs@.subrange(0, i as int) =~= vs@);
    r
}

fn weights_of_strategy_variants(vs: &Vec<StrategyVariant>) -> (r: Vec<i32>)
    ensures
        r@ == strategy_variant_weights(vs@),
{
    let mut r: Vec<i32> = Vec::new();
    let mut i: usize = 0;
    while i < vs.len()
        invariant
            i <= vs@.len(),
            r@ == strategy_variant_weights(vs@.subrange(0, i as int)),
        decreases vs@.len() - i,
    {
        r.push(vs[i].weight);
        i = i + 1;
        assert(r@ =~= strategy_variant_weights(vs@.subrange(0, i as int)));
    }
    assert(vs@.subrange(0, i as int) =~= vs@);
    r
}

/// Drops flag variants that the engine could not draw from.
pub fn sanitize_variants(vs: Option<Vec<Variant>>) -> (r: Option<Vec<Variant>>)
    ensures
        r == sanitized_variants(vs),
{
    let ok = match &vs {
        Some(v) => check_weights(&weights_of_variants(v)),
        None => true,
    };
    if ok {
        vs
    } else {
        None
    }
}

/// Drops the variants of a strategy when the engine could not draw from them.
pub fn sanitize_strategy(s: Strategy) -> (r: Strategy)
    ensures
        r == sanitized_strategy(s),
{
    let ok = match &s.variants {
        Some(v) => check_weights(&weights_of_strategy_variants(v)),
        None => true,
    };
    if ok {
        s
    } else {
        let mut s = s;
        s.variants = None;
        s
    }
}

/// Sanitizes every strategy of a list, keeping their order.
pub fn sanitize_strategies(ss: Option<Vec<Strategy>>) -> (r: Option<Vec<Strategy>>)
    ensures
        match r {
            Some(v) => sanitized_strategies(ss) == Some(v@),
            None => ss is None,
        },
{
    match ss {
        None => None,
        Some(v) => {
            let ghost orig = v@;
            let mut rest = v;
            let mut out: Vec<Strategy> = Vec::new();
            while rest.len() > 0
                invariant
                    orig.len() == out@.len() + rest@.len(),
                    rest@ == orig.subrange(out@.len() as int, orig.len() as int),
                    out@ == orig.subrange(0, out@.len() as int).map_values(
                        |s: Strategy| sanitized_strategy(s),
                    ),
                decreases rest@.len(),
            {
                let s = rest.remove(0);
                out.push(sanitize_strategy(s));
                assert(out@ =~= orig.subrange(0, out@.len() as int).map_values(
                    |s: Strategy| sanitized_strategy(s),
                ));
                assert(rest@ =~= orig.subrange(out@.len() as int, orig.len() as int));
            }
            assert(orig.subrange(0, out@.len() as int) =~= orig);
            Some(out)
        },
    }
}

/// Relies on the public `variants` and `strategies` fields of
/// `ClientFeature`: moves both lists out of a flag.
#[verifier::external_body]
fn split_feature(f: ClientFeature) -> (r: (ClientFeature, Option<Vec<Variant>>, Option<Vec<Strategy>>)) {
    let mut f = f;
    let variants = f.variants.take();
    let strategies = f.strategies.take();
    (f, variants, strategies)
}

/// Relies on the public `variants` and `strategies` fields of
/// `ClientFeature`: puts both lists into a flag, replacing what it held.
#[verifier::external_body]
fn join_feature(
    f: ClientFeature,
    variants: Option<Vec<Variant>>,
    strategies: Option<Vec<Strategy>>,
) -> (r: ClientFeature) {
    ClientFeature { variants, strategies, ..f }
}

/// A flag whose variant lists, its own and its strategies', are all ones the
/// engine can draw from; the others are dropped.
fn sanitize_feature(f: ClientFeature) -> ClientFeature {
    let (f, variants, strategies) = split_feature(f);
    join_feature(f, sanitize_variants(variants), sanitize_strategies(strategies))
}

/// A dataset whose every variant list has passed `check_weights`. Only
/// `sanitize_dataset` makes one, and only such a dataset reaches the engine.
pub struct SafeDataset {
    pub(crate) features: ClientFeatures,
}

impl SafeDataset {
    /// The dataset held.
    pub closed spec fn dataset(&self) -> ClientFeatures {
        self.features
    }
}

/// Drops, from every flag of a dataset, the variant lists that the engine
/// could not draw from (a negative weight, a zero total, or a total beyond
/// `u32`), keeping the flags themselves and their order.
pub fn sanitize_dataset(features: ClientFeatures) -> (r: SafeDataset)
    ensures
        r.dataset().version == features.version,
        r.dataset().features@.len() == features.features@.len(),
{
    let ClientFeatures { version, features: list, segments, query, meta } = features;
    let ghost n = list@.len();
    let mut rest = list;
    let mut out: Vec<ClientFeature> = Vec::new();
    while rest.len() > 0
        invariant
            out@.len() + rest@.len() == n,
        decreases rest@.len(),
    {
        let f = rest.remove(0);
        out.push(sanitize_feature(f));
    }
    SafeDataset { features: ClientFeatures { version, features: out, segments, query, meta } }
}

} // verus!
