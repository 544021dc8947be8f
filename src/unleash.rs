use crate::error::TokenParseError;
use crate::token::{is_credential, is_environment_of, UnleashToken};
use unleash_types::client_features::Query as FeaturesQuery;
use vstd::prelude::*;

verus! {

/// Time between two refresh cycles when none is configured, in milliseconds.
pub const DEFAULT_REFRESH_INTERVAL_MS: u64 = 15000;

/// The values of an optional string.
pub open spec fn opt_str_view(o: Option<String>) -> Option<Seq<char>> {
    match o {
        Some(s) => Some(s@),
        None => None,
    }
}

/// A context field after enrichment: the caller's value when set, else the
/// configured one.
pub open spec fn filled(given: Option<Seq<char>>, configured: Seq<char>) -> Option<Seq<char>> {
    match given {
        Some(g) => Some(g),
        None => Some(configured),
    }
}

fn copy_opt_string(o: &Option<String>) -> (r: Option<String>)
    ensures
        opt_str_view(r) == opt_str_view(*o),
{
    match o {
        Some(s) => Some(String::from_str(s.as_str())),
        None => None,
    }
}

/// A validated client configuration.
#[derive(Debug)]
pub struct UnleashConfig {
    pub url: String,
    pub app_name: String,
    pub instance_id: Option<String>,
    pub environment: String,
    pub token: String,
    pub refresh_interval_ms: u64,
    pub features_query: Option<FeaturesQuery>,
    pub disable_metrics: bool,
}

impl UnleashConfig {
    /// Checks the credential and fills in the defaults: a refresh every
    /// fifteen seconds, and metrics reported.
    pub fn new(
        url: String,
        app_name: String,
        token: String,
        instance_id: Option<String>,
        refresh_interval_ms: Option<u64>,
        features_query: Option<FeaturesQuery>,
        disable_metrics: Option<bool>,
    ) -> (r: Result<UnleashConfig, TokenParseError>)
        ensures
            r is Ok <==> is_credential(token@),
            r matches Ok(c) ==> {
                &&& c.url@ == url@
                &&& c.app_name@ == app_name@
                &&& opt_str_view(c.instance_id) == opt_str_view(instance_id)
                &&& c.token@ == token@
                &&& is_environment_of(token@, c.environment@)
                &&& c.refresh_interval_ms == match refresh_interval_ms {
                    Some(ms) => ms,
                    None => DEFAULT_REFRESH_INTERVAL_MS,
                }
                &&& c.features_query == features_query
                &&& c.disable_metrics == match disable_metrics {
                    Some(d) => d,
                    None => false,
                }
            },
    {
        match UnleashToken::try_from(token) {
            Ok(t) => Ok(
                UnleashConfig {
                    url,
                    app_name,
                    instance_id,
                    environment: t.environment,
                    token: t.token,
                    refresh_interval_ms: match refresh_interval_ms {
                        Some(ms) => ms,
                        None => DEFAULT_REFRESH_INTERVAL_MS,
                    },
                    features_query,
                    disable_metrics: match disable_metrics {
                        Some(d) => d,
                        None => false,
                    },
                },
            ),
            Err(e) => Err(e),
        }
    }

    /// The refresh interval in whole seconds, as the registration reports it
    /// (at most `u32::MAX`).
    pub fn register_interval_secs(&self) -> (r: u32)
        ensures
            r as int == if self.refresh_interval_ms / 1000 <= u32::MAX {
                (self.refresh_interval_ms / 1000) as int
            } else {
                u32::MAX as int
            },
    {
        let secs: u64 = self.refresh_interval_ms / 1000;
        if secs > 0xFFFF_FFFF {
            u32::MAX
        } else {
            secs as u32
        }
    }

    /// A copy of the instance id.
    pub fn instance_id(&self) -> (r: Option<String>)
        ensures
            opt_str_view(r) == opt_str_view(self.instance_id),
    {
        copy_opt_string(&self.instance_id)
    }
}

/// The version string reported by this client: `unleash-client-rs:<version>`.
pub fn sdk_version(pkg_version: &str) -> (r: String)
    ensures
        r@ == "unleash-client-rs:"@ + pkg_version@,
{
    String::from_str("unleash-client-rs:").concat(pkg_version)
}

/// Optional settings of a client, each with a default.
#[derive(Debug)]
pub struct UnleashBuilder {
    pub instance_id: Option<String>,
    pub refresh_interval_ms: Option<u64>,
    pub features_query: Option<FeaturesQuery>,
    pub disable_metrics: Option<bool>,
}

impl Default for UnleashBuilder {
    fn default() -> (r: UnleashBuilder)
        ensures
            r.instance_id.is_none(),
            r.refresh_interval_ms.is_none(),
            r.features_query.is_none(),
            r.disable_metrics.is_none(),
    {
        UnleashBuilder {
            instance_id: None,
            refresh_interval_ms: None,
            features_query: None,
            disable_metrics: None,
        }
    }
}

impl UnleashBuilder {
    /// Sets the instance id.
    pub fn instance_id(self, instance_id: String) -> (r: Self)
        ensures
            opt_str_view(r.instance_id) == Some(instance_id@),
            r.refresh_interval_ms == self.refresh_interval_ms,
            r.features_query == self.features_query,
            r.disable_metrics == self.disable_metrics,
    {
        UnleashBuilder { instance_id: Some(instance_id), ..self }
    }

    /// Sets the time between refresh cycles, in milliseconds.
    pub fn refresh_interval(self, refresh_interval_ms: u64) -> (r: Self)
        ensures
            opt_str_view(r.instance_id) == opt_str_view(self.instance_id),
            r.refresh_interval_ms == Some(refresh_interval_ms),
            r.features_query == self.features_query,
            r.disable_metrics == self.disable_metrics,
    {
        UnleashBuilder { refresh_interval_ms: Some(refresh_interval_ms), ..self }
    }

    /// Sets the filter sent with features requests.
    pub fn features_query(self, features_query: FeaturesQuery) -> (r: Self)
        ensures
            opt_str_view(r.instance_id) == opt_str_view(self.instance_id),
            r.refresh_interval_ms == self.refresh_interval_ms,
            r.features_query == Some(features_query),
            r.disable_metrics == self.disable_metrics,
    {
        UnleashBuilder { features_query: Some(features_query), ..self }
    }

    /// Turns metrics reporting (and registration) off or on.
    pub fn disable_metrics(self, disable_metrics: bool) -> (r: Self)
        ensures
            opt_str_view(r.instance_id) == opt_str_view(self.instance_id),
            r.refresh_interval_ms == self.refresh_interval_ms,
            r.features_query == self.features_query,
            r.disable_metrics == Some(disable_metrics),
    {
        UnleashBuilder { disable_metrics: Some(disable_metrics), ..self }
    }

    /// The configuration for a server, application and credential, with the
    /// settings made so far.
    pub fn build(self, url: String, app_name: String, token: String) -> (r: Result<
        UnleashConfig,
        TokenParseError,
    >)
        ensures
            r is Ok <==> is_credential(token@),
            r matches Ok(c) ==> {
                &&& c.url@ == url@
                &&& c.app_name@ == app_name@
                &&& opt_str_view(c.instance_id) == opt_str_view(self.instance_id)
                &&& c.token@ == token@
                &&& is_environment_of(token@, c.environment@)
                &&& c.refresh_interval_ms == match self.refresh_interval_ms {
                    Some(ms) => ms,
                    None => DEFAULT_REFRESH_INTERVAL_MS,
                }
                &&& c.features_query == self.features_query
                &&& c.disable_metrics == match self.disable_metrics {
                    Some(d) => d,
                    None => false,
                }
            },
    {
        UnleashConfig::new(
            url,
            app_name,
            token,
            self.instance_id,
            self.refresh_interval_ms,
            self.features_query,
            self.disable_metrics,
        )
    }
}

} // verus!
