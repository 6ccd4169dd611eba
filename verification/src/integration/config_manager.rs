//! LLM Config Manager integration adapter.
//!
//! A thin runtime adapter for consuming configuration from the Config
//! Manager: enforcement parameters, rule thresholds and dynamic policy
//! settings. The dependency runs one way: the policy engine consumes from the
//! Config Manager and exports nothing to it.

use super::client::{Endpoint, IntegrationClient, Method, Request};
use crate::number::{Float64, FIVE_BITS, HUNDRED_BITS};
use std::collections::HashMap;
use std::time::Duration;
use vstd::prelude::*;
use vstd::string::StringExecFns;

verus! {

/// Client for consuming configuration from LLM Config Manager.
///
/// Every operation is one request under the adapter's namespace.
#[derive(Debug)]
pub struct ConfigManagerAdapter {
    client: IntegrationClient,
    /// Namespace for policy engine configuration
    namespace: String,
}

/// A Config Manager adapter: its endpoint and its namespace.
pub struct ConfigManagerView {
    pub client: Endpoint,
    pub namespace: Seq<char>,
}

impl View for ConfigManagerAdapter {
    type V = ConfigManagerView;

    closed spec fn view(&self) -> ConfigManagerView {
        ConfigManagerView { client: self.client@, namespace: self.namespace@ }
    }
}

/// The path of one configuration entry of a namespace.
pub open spec fn config_path(namespace: Seq<char>, key: Seq<char>) -> Seq<char> {
    "/api/v1/config/"@ + namespace + "/"@ + key
}

impl ConfigManagerAdapter {
    /// Create a new Config Manager adapter, for the namespace `policy-engine`.
    pub fn new(base_url: String, timeout: Duration) -> (adapter: Self)
        ensures
            adapter@ == (ConfigManagerView {
                client: Endpoint { base_url: base_url@, timeout },
                namespace: "policy-engine"@,
            }),
    {
        ConfigManagerAdapter {
            client: IntegrationClient::new(base_url, timeout),
            namespace: String::from_str("policy-engine"),
        }
    }

    /// Create a new Config Manager adapter with a custom namespace.
    pub fn with_namespace(base_url: String, timeout: Duration, namespace: String) -> (adapter: Self)
        ensures
            adapter@ == (ConfigManagerView {
                client: Endpoint { base_url: base_url@, timeout },
                namespace: namespace@,
            }),
    {
        ConfigManagerAdapter { client: IntegrationClient::new(base_url, timeout), namespace }
    }

    /// Get a configuration value by key. The answer is a [`ConfigValue`].
    ///
    /// The key goes into the path as it is: the caller sees to it that it is
    /// fit to stand there.
    pub fn get_config(&self, key: &str) -> (req: Request<()>)
        ensures
            req@ == self@.client.get(config_path(self@.namespace, key@)),
    {
        let mut path = String::from_str("/api/v1/config/");
        path.append(self.namespace.as_str());
        path.append("/");
        path.append(key);
        self.client.get(path.as_str())
    }

    /// Get multiple configuration values. The answer maps each key to a
    /// [`ConfigValue`].
    pub fn get_configs(&self, keys: &[&str]) -> (req: Request<BatchConfigRequest>)
        ensures
            req.body matches Some(batch) && req@ == self@.client.post(
                "/api/v1/config/batch"@,
                batch,
            ) && batch@ == (BatchConfigView {
                namespace: self@.namespace,
                keys: keys@.map_values(|k: &str| k@),
            }),
    {
        let mut owned: Vec<String> = Vec::new();
        let mut i: usize = 0;
        while i < keys.len()
            invariant
                i <= keys.len(),
                owned@.len() == i,
                forall|j: int| 0 <= j < i ==> (#[trigger] owned@[j])@ == keys@[j]@,
            decreases keys.len() - i,
        {
            owned.push(String::from_str(keys[i]));
            i = i + 1;
        }
        let batch = BatchConfigRequest { namespace: self.namespace.clone(), keys: owned };
        assert(batch@.keys =~= keys@.map_values(|k: &str| k@));
        self.client.post("/api/v1/config/batch", batch)
    }

    /// Get all enforcement parameters for policy evaluation. The answer is an
    /// [`EnforcementParams`].
    pub fn get_enforcement_params(&self) -> (req: Request<()>)
        ensures
            req@ == self@.client.get(config_path(self@.namespace, "enforcement"@)),
    {
        self.get_config("enforcement")
    }

    /// Get rule threshold configuration. The answer is a [`RuleThresholds`].
    pub fn get_rule_thresholds(&self) -> (req: Request<()>)
        ensures
            req@ == self@.client.get(config_path(self@.namespace, "thresholds"@)),
    {
        self.get_config("thresholds")
    }

    /// Get dynamic policy settings. The answer is a [`PolicySettings`].
    pub fn get_policy_settings(&self) -> (req: Request<()>)
        ensures
            req@ == self@.client.get(config_path(self@.namespace, "policy-settings"@)),
    {
        self.get_config("policy-settings")
    }

    /// Get feature flags for policy engine. The answer is a [`FeatureFlags`].
    pub fn get_feature_flags(&self) -> (req: Request<()>)
        ensures
            req@ == self@.client.get(config_path(self@.namespace, "features"@)),
    {
        self.get_config("features")
    }

    /// Get the current configuration version, for polling. The answer is a
    /// [`ConfigVersion`].
    pub fn get_config_version(&self) -> (req: Request<()>)
        ensures
            req@ == self@.client.get(config_path(self@.namespace, "version"@)),
    {
        self.get_config("version")
    }

    /// Validate configuration access (RBAC check). The answer is an
    /// [`AccessValidationResult`].
    pub fn validate_access<'a>(&self, request: &'a AccessValidationRequest) -> (req: Request<
        &'a AccessValidationRequest,
    >)
        ensures
            req@ == self@.client.post("/api/v1/rbac/validate"@, request),
    {
        self.client.post("/api/v1/rbac/validate", request)
    }

    /// The probe that asks whether the Config Manager is alive.
    pub fn health_check(&self) -> (req: Request<()>)
        ensures
            req@ == self@.client.probe(),
    {
        self.client.health_check()
    }
}

/// A configuration value from Config Manager.
#[derive(Debug, Clone)]
pub struct ConfigValue {
    /// Configuration key
    pub key: String,
    /// Configuration value
    pub value: serde_json::Value,
    /// Value type
    pub value_type: ConfigValueType,
    /// Configuration metadata; default-filled when absent
    pub metadata: ConfigMetadata,
}

/// Configuration value types.
#[derive(Debug, Clone, Copy, PartialEq, Eq, Structural)]
pub enum ConfigValueType {
    /// String value
    String,
    /// Integer value
    Integer,
    /// Float value
    Float,
    /// Boolean value
    Boolean,
    /// JSON object
    Object,
    /// JSON array
    Array,
    /// Encrypted/secret value
    Secret,
}

impl Default for ConfigValueType {
    fn default() -> (r: Self)
        ensures
            r == ConfigValueType::String,
    {
        ConfigValueType::String
    }
}

/// Configuration metadata.
#[derive(Debug, Clone)]
pub struct ConfigMetadata {
    /// Configuration version
    pub version: u64,
    /// Last modified timestamp
    pub modified_at: Option<String>,
    /// Modified by (user/service)
    pub modified_by: Option<String>,
    /// Configuration source
    pub source: Option<String>,
}

impl ConfigMetadata {
    /// Whether every field has its default value.
    pub open spec fn is_default(&self) -> bool {
        &&& self.version == 0
        &&& self.modified_at is None
        &&& self.modified_by is None
        &&& self.source is None
    }
}

impl Default for ConfigMetadata {
    fn default() -> (r: Self)
        ensures
            r.is_default(),
    {
        ConfigMetadata { version: 0, modified_at: None, modified_by: None, source: None }
    }
}

/// Batch configuration request: the keys wanted from one namespace.
#[derive(Debug, Clone)]
pub struct BatchConfigRequest {
    pub namespace: String,
    pub keys: Vec<String>,
}

/// A batch configuration request, as sequences.
pub struct BatchConfigView {
    pub namespace: Seq<char>,
    pub keys: Seq<Seq<char>>,
}

impl View for BatchConfigRequest {
    type V = BatchConfigView;

    open spec fn view(&self) -> BatchConfigView {
        BatchConfigView {
            namespace: self.namespace@,
            keys: self.keys@.map_values(|k: String| k@),
        }
    }
}

/// Enforcement parameters for policy evaluation.
#[derive(Debug, Clone)]
pub struct EnforcementParams {
    /// Whether strict mode is enabled
    pub strict_mode: bool,
    /// Default decision when no rules match
    pub default_decision: String,
    /// Maximum evaluation time in milliseconds
    pub max_evaluation_time_ms: u64,
    /// Whether to fail open on errors
    pub fail_open: bool,
    /// Audit logging level
    pub audit_level: String,
    /// Rate limiting configuration
    pub rate_limits: RateLimitConfig,
}

/// The decision taken when no rule matches and none is configured: `deny`.
pub fn default_decision() -> (r: String)
    ensures
        r@ == "deny"@,
{
    String::from_str("deny")
}

/// The evaluation time allowed when none is configured, in milliseconds.
pub fn default_max_eval_time() -> (r: u64)
    ensures
        r == 100,
{
    100
}

/// The audit level used when none is configured: `standard`.
pub fn default_audit_level() -> (r: String)
    ensures
        r@ == "standard"@,
{
    String::from_str("standard")
}

impl EnforcementParams {
    /// Whether every field has its default value.
    pub open spec fn is_default(&self) -> bool {
        &&& !self.strict_mode
        &&& self.default_decision@ == "deny"@
        &&& self.max_evaluation_time_ms == 100
        &&& !self.fail_open
        &&& self.audit_level@ == "standard"@
        &&& self.rate_limits.is_default()
    }
}

impl Default for EnforcementParams {
    fn default() -> (r: Self)
        ensures
            r.is_default(),
    {
        EnforcementParams {
            strict_mode: false,
            default_decision: default_decision(),
            max_evaluation_time_ms: default_max_eval_time(),
            fail_open: false,
            audit_level: default_audit_level(),
            rate_limits: RateLimitConfig::default(),
        }
    }
}

/// Rate limiting configuration.
#[derive(Debug, Clone)]
pub struct RateLimitConfig {
    /// Enabled flag
    pub enabled: bool,
    /// Requests per second
    pub requests_per_second: u32,
    /// Burst size
    pub burst_size: u32,
}

/// The request rate filled in where an answer names none.
pub fn default_rps() -> (r: u32)
    ensures
        r == 1000,
{
    1000
}

/// The burst size filled in where an answer names none.
pub fn default_burst() -> (r: u32)
    ensures
        r == 100,
{
    100
}

impl RateLimitConfig {
    /// Whether every field has its default value: rate limiting is off and
    /// both numbers are zero.
    pub open spec fn is_default(&self) -> bool {
        &&& !self.enabled
        &&& self.requests_per_second == 0
        &&& self.burst_size == 0
    }
}

impl Default for RateLimitConfig {
    fn default() -> (r: Self)
        ensures
            r.is_default(),
    {
        RateLimitConfig { enabled: false, requests_per_second: 0, burst_size: 0 }
    }
}

/// Rule threshold configuration.
#[derive(Debug, Clone)]
pub struct RuleThresholds {
    /// Cost threshold for budget enforcement
    pub cost_threshold: Float64,
    /// Token limit threshold
    pub token_limit: u64,
    /// Request rate threshold
    pub request_rate_limit: u32,
    /// Latency threshold in milliseconds
    pub latency_threshold_ms: u64,
    /// Error rate threshold (percentage)
    pub error_rate_threshold: Float64,
    /// Custom thresholds
    pub custom: HashMap<String, serde_json::Value>,
}

impl RuleThresholds {
    /// Whether every field has its default value: a cost threshold of one
    /// hundred, an error rate of five percent and no custom thresholds.
    pub open spec fn is_default(&self) -> bool {
        &&& self.cost_threshold.bits == HUNDRED_BITS
        &&& self.token_limit == 100000
        &&& self.request_rate_limit == 1000
        &&& self.latency_threshold_ms == 5000
        &&& self.error_rate_threshold.bits == FIVE_BITS
        &&& self.custom@ == Map::<String, serde_json::Value>::empty()
    }
}

impl Default for RuleThresholds {
    fn default() -> (r: Self)
        ensures
            r.is_default(),
    {
        RuleThresholds {
            cost_threshold: Float64::from_bits(HUNDRED_BITS),
            token_limit: 100000,
            request_rate_limit: 1000,
            latency_threshold_ms: 5000,
            error_rate_threshold: Float64::from_bits(FIVE_BITS),
            custom: HashMap::new(),
        }
    }
}

/// Dynamic policy settings.
#[derive(Debug, Clone)]
pub struct PolicySettings {
    /// Enabled policy namespaces
    pub enabled_namespaces: Vec<String>,
    /// Disabled policy IDs (overrides)
    pub disabled_policies: Vec<String>,
    /// Policy priority overrides
    pub priority_overrides: HashMap<String, i32>,
    /// Environment-specific settings
    pub environment: String,
    /// Cache TTL in seconds
    pub cache_ttl_seconds: u64,
    /// Hot reload enabled
    pub hot_reload_enabled: bool,
}

/// The cache TTL used when none is configured, in seconds.
pub fn default_cache_ttl() -> (r: u64)
    ensures
        r == 300,
{
    300
}

/// Whether hot reload is on when nothing is configured.
pub fn default_hot_reload() -> (r: bool)
    ensures
        r,
{
    true
}

impl PolicySettings {
    /// Whether every field has its default value: the one namespace
    /// `default`, the environment `production`, nothing disabled or
    /// overridden.
    pub open spec fn is_default(&self) -> bool {
        &&& self.enabled_namespaces@.len() == 1
        &&& self.enabled_namespaces@[0]@ == "default"@
        &&& self.disabled_policies@.len() == 0
        &&& self.priority_overrides@ == Map::<String, i32>::empty()
        &&& self.environment@ == "production"@
        &&& self.cache_ttl_seconds == 300
        &&& self.hot_reload_enabled
    }
}

impl Default for PolicySettings {
    fn default() -> (r: Self)
        ensures
            r.is_default(),
    {
        let mut enabled_namespaces: Vec<String> = Vec::new();
        enabled_namespaces.push(String::from_str("default"));
        PolicySettings {
            enabled_namespaces,
            disabled_policies: Vec::new(),
            priority_overrides: HashMap::new(),
            environment: String::from_str("production"),
            cache_ttl_seconds: default_cache_ttl(),
            hot_reload_enabled: default_hot_reload(),
        }
    }
}

/// Feature flags for policy engine.
#[derive(Debug, Clone)]
pub struct FeatureFlags {
    /// Parallel evaluation enabled
    pub parallel_evaluation: bool,
    /// CEL expressions enabled
    pub cel_enabled: bool,
    /// WASM plugins enabled
    pub wasm_enabled: bool,
    /// Distributed caching enabled
    pub distributed_cache: bool,
    /// Advanced telemetry enabled
    pub advanced_telemetry: bool,
    /// Custom feature flags
    pub custom: HashMap<String, bool>,
}

/// The value of a flag that is on unless an answer says otherwise.
pub fn default_true() -> (r: bool)
    ensures
        r,
{
    true
}

impl FeatureFlags {
    /// Whether every field has its default value.
    pub open spec fn is_default(&self) -> bool {
        &&& self.parallel_evaluation
        &&& self.cel_enabled
        &&& !self.wasm_enabled
        &&& !self.distributed_cache
        &&& self.advanced_telemetry
        &&& self.custom@ == Map::<String, bool>::empty()
    }
}

impl Default for FeatureFlags {
    fn default() -> (r: Self)
        ensures
            r.is_default(),
    {
        FeatureFlags {
            parallel_evaluation: true,
            cel_enabled: true,
            wasm_enabled: false,
            distributed_cache: false,
            advanced_telemetry: true,
            custom: HashMap::new(),
        }
    }
}

/// Configuration version information.
#[derive(Debug, Clone)]
pub struct ConfigVersion {
    /// Current version number
    pub version: u64,
    /// Last modified timestamp
    pub modified_at: String,
    /// Checksum/hash of configuration
    pub checksum: Option<String>,
}

/// Access validation request for RBAC.
#[derive(Debug, Clone)]
pub struct AccessValidationRequest {
    /// Subject (user/service) requesting access
    pub subject: String,
    /// Resource being accessed
    pub resource: String,
    /// Action being performed
    pub action: String,
    /// Additional context
    pub context: HashMap<String, String>,
}

/// Access validation result.
#[derive(Debug, Clone)]
pub struct AccessValidationResult {
    /// Whether access is allowed
    pub allowed: bool,
    /// Reason for the decision
    pub reason: Option<String>,
    /// Applicable policies
    pub policies: Vec<String>,
}

impl AccessValidationResult {
    /// Whether every field has its default value: access is refused, with no
    /// reason and no policy named.
    pub open spec fn is_default(&self) -> bool {
        &&& !self.allowed
        &&& self.reason is None
        &&& self.policies@.len() == 0
    }
}

impl Default for AccessValidationResult {
    fn default() -> (r: Self)
        ensures
            r.is_default(),
    {
        AccessValidationResult { allowed: false, reason: None, policies: Vec::new() }
    }
}

} // verus!
