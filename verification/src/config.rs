//! Configuration of the policy engine and of its integrations.
//!
//! The values are plain data. The few rules are here: the defaults, the
//! durations that the numbers stand for, what the environment overrides and
//! which combinations are refused.

use crate::duration::{duration_of_millis, duration_of_secs};
use crate::number::{Float64, ONE_BITS};
use crate::text::{flag_of, number_of, parse_flag, parse_u16, same_text};
use std::time::Duration;
use vstd::prelude::*;
use vstd::string::StringExecFns;

verus! {

/// Main configuration structure for the policy engine.
#[derive(Debug, Clone)]
pub struct Config {
    /// Server configuration
    pub server: ServerConfig,
    /// Cache configuration
    pub cache: CacheConfig,
    /// Telemetry/observability configuration
    pub telemetry: TelemetryConfig,
    /// Integration configuration for external services
    pub integrations: IntegrationsConfig,
    /// Performance tuning configuration
    pub performance: PerformanceConfig,
    /// Security configuration
    pub security: SecurityConfig,
}

/// Server configuration.
#[derive(Debug, Clone)]
pub struct ServerConfig {
    /// HTTP server host
    pub host: String,
    /// HTTP server port
    pub port: u16,
    /// gRPC server port
    pub grpc_port: u16,
    /// Request timeout in milliseconds
    pub request_timeout_ms: u64,
}

/// Cache configuration.
#[derive(Debug, Clone)]
pub struct CacheConfig {
    /// Whether caching is enabled
    pub enabled: bool,
    /// Maximum number of entries in L1 (in-memory) cache
    pub l1_max_entries: usize,
    /// L1 cache TTL in seconds
    pub l1_ttl_seconds: u64,
    /// Whether L2 (Redis) cache is enabled
    pub l2_enabled: bool,
    /// Redis URL for L2 cache
    pub redis_url: Option<String>,
    /// Redis key prefix
    pub redis_prefix: String,
    /// L2 cache TTL in seconds
    pub l2_ttl_seconds: u64,
}

/// Telemetry and observability configuration.
#[derive(Debug, Clone)]
pub struct TelemetryConfig {
    /// Whether telemetry is enabled
    pub enabled: bool,
    /// Service name for telemetry
    pub service_name: String,
    /// OpenTelemetry collector endpoint
    pub otlp_endpoint: Option<String>,
    /// Metrics port (Prometheus)
    pub metrics_port: u16,
    /// Metrics path
    pub metrics_path: String,
    /// Log level
    pub log_level: String,
    /// Whether to enable JSON log format
    pub json_logs: bool,
    /// Trace sampling ratio (zero to one)
    pub trace_sampling_ratio: Float64,
}

/// External service integration configuration.
#[derive(Debug, Clone)]
pub struct IntegrationsConfig {
    /// LLM Shield service URL
    pub shield_url: Option<String>,
    /// LLM CostOps service URL
    pub costops_url: Option<String>,
    /// LLM Governance service URL
    pub governance_url: Option<String>,
    /// LLM Edge Agent service URL
    pub edge_agent_url: Option<String>,
    /// Incident Manager service URL
    pub incident_manager_url: Option<String>,
    /// Sentinel service URL
    pub sentinel_url: Option<String>,
    /// LLM Schema Registry service URL
    pub schema_registry_url: Option<String>,
    /// LLM Config Manager service URL
    pub config_manager_url: Option<String>,
    /// LLM Observatory service URL
    pub observatory_url: Option<String>,
    /// Integration request timeout in milliseconds
    pub timeout_ms: u64,
    /// Whether to fail evaluation if integration fails
    pub fail_on_error: bool,
}

/// Performance tuning configuration.
#[derive(Debug, Clone)]
pub struct PerformanceConfig {
    /// Maximum policy size in MB
    pub max_policy_size_mb: usize,
    /// Maximum evaluation time in milliseconds
    pub max_evaluation_time_ms: u64,
    /// Whether to enable parallel policy evaluation
    pub parallel_evaluation: bool,
    /// Maximum concurrent evaluations
    pub max_concurrent_evaluations: usize,
    /// WASM sandbox memory limit in MB
    pub wasm_memory_limit_mb: usize,
    /// CEL expression evaluation timeout in milliseconds
    pub cel_timeout_ms: u64,
}

/// Security configuration.
#[derive(Debug, Clone)]
pub struct SecurityConfig {
    /// Whether authentication is required
    pub auth_enabled: bool,
    /// JWT secret (should be provided via environment variable)
    pub jwt_secret: Option<String>,
    /// JWT algorithm
    pub jwt_algorithm: String,
    /// JWT expiration in seconds
    pub jwt_expiration_seconds: u64,
    /// API key header name
    pub api_key_header: String,
    /// Rate limiting enabled
    pub rate_limit_enabled: bool,
    /// Rate limit requests per second
    pub rate_limit_rps: u32,
    /// Rate limit burst size
    pub rate_limit_burst: u32,
}

/// Why a configuration is refused.
#[derive(Debug, Clone, Copy, PartialEq, Eq, Structural)]
pub enum ConfigError {
    /// Authentication is enabled and no JWT secret is set.
    MissingJwtSecret,
    /// The L2 cache is enabled and no Redis URL is set.
    MissingRedisUrl,
    /// The maximum evaluation time is zero.
    ZeroEvaluationTime,
}

impl ConfigError {
    /// The text of the complaint.
    pub open spec fn spec_message(self) -> Seq<char> {
        match self {
            ConfigError::MissingJwtSecret => "JWT_SECRET must be set when authentication is enabled"@,
            ConfigError::MissingRedisUrl => "REDIS_URL must be set when L2 cache is enabled"@,
            ConfigError::ZeroEvaluationTime => "max_evaluation_time_ms must be greater than 0"@,
        }
    }

    /// The text of the complaint.
    pub fn message(&self) -> (text: String)
        ensures
            text@ == self.spec_message(),
    {
        match self {
            ConfigError::MissingJwtSecret => String::from_str(
                "JWT_SECRET must be set when authentication is enabled",
            ),
            ConfigError::MissingRedisUrl => String::from_str(
                "REDIS_URL must be set when L2 cache is enabled",
            ),
            ConfigError::ZeroEvaluationTime => String::from_str(
                "max_evaluation_time_ms must be greater than 0",
            ),
        }
    }
}

impl ServerConfig {
    /// Whether every field has its default value.
    pub open spec fn is_default(&self) -> bool {
        &&& self.host@ == "0.0.0.0"@
        &&& self.port == 3000
        &&& self.grpc_port == 50051
        &&& self.request_timeout_ms == 30000
    }

    /// Get the request timeout as a Duration.
    pub fn request_timeout(&self) -> (d: Duration)
        ensures
            d == duration_of_millis(self.request_timeout_ms),
    {
        Duration::from_millis(self.request_timeout_ms)
    }
}

impl Default for ServerConfig {
    fn default() -> (r: Self)
        ensures
            r.is_default(),
    {
        ServerConfig {
            host: String::from_str("0.0.0.0"),
            port: 3000,
            grpc_port: 50051,
            request_timeout_ms: 30000,
        }
    }
}

impl CacheConfig {
    /// Whether every field has its default value.
    pub open spec fn is_default(&self) -> bool {
        &&& self.enabled
        &&& self.l1_max_entries == 10000
        &&& self.l1_ttl_seconds == 300
        &&& !self.l2_enabled
        &&& self.redis_url is None
        &&& self.redis_prefix@ == "llm-policy:"@
        &&& self.l2_ttl_seconds == 600
    }

    /// Get L1 TTL as Duration.
    pub fn l1_ttl(&self) -> (d: Duration)
        ensures
            d == duration_of_secs(self.l1_ttl_seconds),
    {
        Duration::from_secs(self.l1_ttl_seconds)
    }

    /// Get L2 TTL as Duration.
    pub fn l2_ttl(&self) -> (d: Duration)
        ensures
            d == duration_of_secs(self.l2_ttl_seconds),
    {
        Duration::from_secs(self.l2_ttl_seconds)
    }
}

impl Default for CacheConfig {
    fn default() -> (r: Self)
        ensures
            r.is_default(),
    {
        CacheConfig {
            enabled: true,
            l1_max_entries: 10000,
            l1_ttl_seconds: 300,
            l2_enabled: false,
            redis_url: None,
            redis_prefix: String::from_str("llm-policy:"),
            l2_ttl_seconds: 600,
        }
    }
}

impl TelemetryConfig {
    /// Whether every field has its default value.
    pub open spec fn is_default(&self) -> bool {
        &&& self.enabled
        &&& self.service_name@ == "llm-policy-engine"@
        &&& self.otlp_endpoint is None
        &&& self.metrics_port == 9090
        &&& self.metrics_path@ == "/metrics"@
        &&& self.log_level@ == "info"@
        &&& !self.json_logs
        &&& self.trace_sampling_ratio.bits == ONE_BITS
    }
}

impl Default for TelemetryConfig {
    fn default() -> (r: Self)
        ensures
            r.is_default(),
    {
        TelemetryConfig {
            enabled: true,
            service_name: String::from_str("llm-policy-engine"),
            otlp_endpoint: None,
            metrics_port: 9090,
            metrics_path: String::from_str("/metrics"),
            log_level: String::from_str("info"),
            json_logs: false,
            trace_sampling_ratio: Float64::from_bits(ONE_BITS),
        }
    }
}

impl IntegrationsConfig {
    /// Whether every field has its default value: no service is configured.
    pub open spec fn is_default(&self) -> bool {
        &&& self.shield_url is None
        &&& self.costops_url is None
        &&& self.governance_url is None
        &&& self.edge_agent_url is None
        &&& self.incident_manager_url is None
        &&& self.sentinel_url is None
        &&& self.schema_registry_url is None
        &&& self.config_manager_url is None
        &&& self.observatory_url is None
        &&& self.timeout_ms == 5000
        &&& !self.fail_on_error
    }

    /// Get integration timeout as Duration.
    pub fn timeout(&self) -> (d: Duration)
        ensures
            d == duration_of_millis(self.timeout_ms),
    {
        Duration::from_millis(self.timeout_ms)
    }
}

impl Default for IntegrationsConfig {
    fn default() -> (r: Self)
        ensures
            r.is_default(),
    {
        IntegrationsConfig {
            shield_url: None,
            costops_url: None,
            governance_url: None,
            edge_agent_url: None,
            incident_manager_url: None,
            sentinel_url: None,
            schema_registry_url: None,
            config_manager_url: None,
            observatory_url: None,
            timeout_ms: 5000,
            fail_on_error: false,
        }
    }
}

impl PerformanceConfig {
    /// Whether every field has its default value.
    pub open spec fn is_default(&self) -> bool {
        &&& self.max_policy_size_mb == 10
        &&& self.max_evaluation_time_ms == 100
        &&& self.parallel_evaluation
        &&& self.max_concurrent_evaluations == 1000
        &&& self.wasm_memory_limit_mb == 64
        &&& self.cel_timeout_ms == 50
    }

    /// Get max evaluation time as Duration.
    pub fn max_evaluation_time(&self) -> (d: Duration)
        ensures
            d == duration_of_millis(self.max_evaluation_time_ms),
    {
        Duration::from_millis(self.max_evaluation_time_ms)
    }

    /// Get CEL timeout as Duration.
    pub fn cel_timeout(&self) -> (d: Duration)
        ensures
            d == duration_of_millis(self.cel_timeout_ms),
    {
        Duration::from_millis(self.cel_timeout_ms)
    }
}

impl Default for PerformanceConfig {
    fn default() -> (r: Self)
        ensures
            r.is_default(),
    {
        PerformanceConfig {
            max_policy_size_mb: 10,
            max_evaluation_time_ms: 100,
            parallel_evaluation: true,
            max_concurrent_evaluations: 1000,
            wasm_memory_limit_mb: 64,
            cel_timeout_ms: 50,
        }
    }
}

impl SecurityConfig {
    /// Whether every field has its default value.
    pub open spec fn is_default(&self) -> bool {
        &&& !self.auth_enabled
        &&& self.jwt_secret is None
        &&& self.jwt_algorithm@ == "HS256"@
        &&& self.jwt_expiration_seconds == 3600
        &&& self.api_key_header@ == "X-API-Key"@
        &&& self.rate_limit_enabled
        &&& self.rate_limit_rps == 1000
        &&& self.rate_limit_burst == 100
    }
}

impl Default for SecurityConfig {
    fn default() -> (r: Self)
        ensures
            r.is_default(),
    {
        SecurityConfig {
            auth_enabled: false,
            jwt_secret: None,
            jwt_algorithm: String::from_str("HS256"),
            jwt_expiration_seconds: 3600,
            api_key_header: String::from_str("X-API-Key"),
            rate_limit_enabled: true,
            rate_limit_rps: 1000,
            rate_limit_burst: 100,
        }
    }
}

impl Config {
    /// Whether every section has its default values.
    pub open spec fn is_default(&self) -> bool {
        &&& self.server.is_default()
        &&& self.cache.is_default()
        &&& self.telemetry.is_default()
        &&& self.integrations.is_default()
        &&& self.performance.is_default()
        &&& self.security.is_default()
    }

    /// The first complaint against the configuration, if there is one:
    /// authentication without a secret, then an L2 cache without a Redis URL,
    /// then an evaluation time of zero.
    pub open spec fn verdict(&self) -> Result<(), ConfigError> {
        if self.security.auth_enabled && self.security.jwt_secret is None {
            Err(ConfigError::MissingJwtSecret)
        } else if self.cache.l2_enabled && self.cache.redis_url is None {
            Err(ConfigError::MissingRedisUrl)
        } else if self.performance.max_evaluation_time_ms == 0 {
            Err(ConfigError::ZeroEvaluationTime)
        } else {
            Ok(())
        }
    }

    /// Validate the configuration.
    pub fn validate(&self) -> (r: Result<(), ConfigError>)
        ensures
            r == self.verdict(),
    {
        if self.security.auth_enabled && self.security.jwt_secret.is_none() {
            return Err(ConfigError::MissingJwtSecret);
        }
        if self.cache.l2_enabled && self.cache.redis_url.is_none() {
            return Err(ConfigError::MissingRedisUrl);
        }
        if self.performance.max_evaluation_time_ms == 0 {
            return Err(ConfigError::ZeroEvaluationTime);
        }
        Ok(())
    }
}

impl Default for Config {
    fn default() -> (r: Self)
        ensures
            r.is_default(),
    {
        Config {
            server: ServerConfig::default(),
            cache: CacheConfig::default(),
            telemetry: TelemetryConfig::default(),
            integrations: IntegrationsConfig::default(),
            performance: PerformanceConfig::default(),
            security: SecurityConfig::default(),
        }
    }
}

/// The value of a variable among the variables of an environment, each a
/// name and a value: the value beside the first occurrence of the name.
pub open spec fn lookup(vars: Seq<(String, String)>, name: Seq<char>) -> Option<Seq<char>>
    decreases vars.len(),
{
    if vars.len() == 0 {
        None
    } else if vars[0].0@ == name {
        Some(vars[0].1@)
    } else {
        lookup(vars.drop_first(), name)
    }
}

/// The port that a variable sets: the number it holds, or the fallback
/// where the variable is unset or holds no port number.
pub open spec fn port_from(found: Option<Seq<char>>, fallback: u16) -> u16 {
    match found {
        Some(text) => match number_of(text) {
            Some(port) => port,
            None => fallback,
        },
        None => fallback,
    }
}

/// The switch that a variable sets: the truth value it holds, or the
/// fallback where the variable is unset or holds neither `true` nor `false`.
pub open spec fn flag_from(found: Option<Seq<char>>, fallback: bool) -> bool {
    match found {
        Some(text) => match flag_of(text) {
            Some(flag) => flag,
            None => fallback,
        },
        None => fallback,
    }
}

/// The text that a variable sets, or the fallback where it is unset.
pub open spec fn text_from(found: Option<Seq<char>>, fallback: Seq<char>) -> Seq<char> {
    match found {
        Some(text) => text,
        None => fallback,
    }
}

/// An optional text, as a sequence.
pub open spec fn optional_text(text: Option<String>) -> Option<Seq<char>> {
    match text {
        Some(t) => Some(t@),
        None => None,
    }
}

/// Finds the value of a variable among the variables of an environment.
pub fn find<'a>(vars: &'a [(String, String)], name: &str) -> (found: Option<&'a String>)
    ensures
        match found {
            Some(value) => lookup(vars@, name@) == Some(value@),
            None => lookup(vars@, name@) is None,
        },
{
    let mut i: usize = 0;
    assert(vars@.subrange(0, vars@.len() as int) =~= vars@);
    while i < vars.len()
        invariant
            i <= vars.len(),
            lookup(vars@, name@) == lookup(vars@.subrange(i as int, vars@.len() as int), name@),
        decreases vars.len() - i,
    {
        let ghost rest = vars@.subrange(i as int, vars@.len() as int);
        assert(rest[0] == vars@[i as int]);
        if same_text(vars[i].0.as_str(), name) {
            return Some(&vars[i].1);
        }
        assert(rest.drop_first() =~= vars@.subrange(i + 1, vars@.len() as int));
        i = i + 1;
    }
    assert(vars@.subrange(i as int, vars@.len() as int).len() == 0);
    None
}

/// The text of a variable, where it is set.
fn find_text(vars: &[(String, String)], name: &str) -> (found: Option<String>)
    ensures
        optional_text(found) == lookup(vars@, name@),
{
    match find(vars, name) {
        Some(value) => Some(value.clone()),
        None => None,
    }
}

/// The port that a variable sets.
fn find_port(vars: &[(String, String)], name: &str, fallback: u16) -> (port: u16)
    ensures
        port == port_from(lookup(vars@, name@), fallback),
{
    match find(vars, name) {
        Some(value) => match parse_u16(value.as_str()) {
            Some(port) => port,
            None => fallback,
        },
        None => fallback,
    }
}

/// The switch that a variable sets.
fn find_flag(vars: &[(String, String)], name: &str, fallback: bool) -> (flag: bool)
    ensures
        flag == flag_from(lookup(vars@, name@), fallback),
{
    match find(vars, name) {
        Some(value) => match parse_flag(value.as_str()) {
            Some(flag) => flag,
            None => fallback,
        },
        None => fallback,
    }
}

impl Config {
    /// Whether the configuration is the default one with the overrides of an
    /// environment applied.
    ///
    /// `PORT` and `GRPC_PORT` set the two ports, `HOST` the host;
    /// `CACHE_ENABLED` and `TELEMETRY_ENABLED` switch the cache and the
    /// telemetry; `REDIS_URL` sets the Redis URL and with it turns the L2
    /// cache on; `OTLP_ENDPOINT` and `LOG_LEVEL` set what they name; the
    /// nine service variables set the nine service URLs; `JWT_SECRET` sets
    /// the secret and `AUTH_ENABLED` switches authentication. A port or a
    /// switch that cannot be read leaves the default. Everything else keeps
    /// its default.
    pub open spec fn reads(&self, vars: Seq<(String, String)>) -> bool {
        &&& self.server.port == port_from(lookup(vars, "PORT"@), 3000)
        &&& self.server.grpc_port == port_from(lookup(vars, "GRPC_PORT"@), 50051)
        &&& self.server.host@ == text_from(lookup(vars, "HOST"@), "0.0.0.0"@)
        &&& self.server.request_timeout_ms == 30000
        &&& self.cache.enabled == flag_from(lookup(vars, "CACHE_ENABLED"@), true)
        &&& self.cache.l1_max_entries == 10000
        &&& self.cache.l1_ttl_seconds == 300
        &&& self.cache.l2_enabled == (lookup(vars, "REDIS_URL"@) is Some)
        &&& optional_text(self.cache.redis_url) == lookup(vars, "REDIS_URL"@)
        &&& self.cache.redis_prefix@ == "llm-policy:"@
        &&& self.cache.l2_ttl_seconds == 600
        &&& self.telemetry.enabled == flag_from(lookup(vars, "TELEMETRY_ENABLED"@), true)
        &&& self.telemetry.service_name@ == "llm-policy-engine"@
        &&& optional_text(self.telemetry.otlp_endpoint) == lookup(vars, "OTLP_ENDPOINT"@)
        &&& self.telemetry.metrics_port == 9090
        &&& self.telemetry.metrics_path@ == "/metrics"@
        &&& self.telemetry.log_level@ == text_from(lookup(vars, "LOG_LEVEL"@), "info"@)
        &&& !self.telemetry.json_logs
        &&& self.telemetry.trace_sampling_ratio.bits == ONE_BITS
        &&& optional_text(self.integrations.shield_url) == lookup(vars, "LLM_SHIELD_URL"@)
        &&& optional_text(self.integrations.costops_url) == lookup(vars, "LLM_COSTOPS_URL"@)
        &&& optional_text(self.integrations.governance_url) == lookup(
            vars,
            "LLM_GOVERNANCE_URL"@,
        )
        &&& optional_text(self.integrations.edge_agent_url) == lookup(
            vars,
            "LLM_EDGE_AGENT_URL"@,
        )
        &&& optional_text(self.integrations.incident_manager_url) == lookup(
            vars,
            "INCIDENT_MANAGER_URL"@,
        )
        &&& optional_text(self.integrations.sentinel_url) == lookup(vars, "SENTINEL_URL"@)
        &&& optional_text(self.integrations.schema_registry_url) == lookup(
            vars,
            "LLM_SCHEMA_REGISTRY_URL"@,
        )
        &&& optional_text(self.integrations.config_manager_url) == lookup(
            vars,
            "LLM_CONFIG_MANAGER_URL"@,
        )
        &&& optional_text(self.integrations.observatory_url) == lookup(
            vars,
            "LLM_OBSERVATORY_URL"@,
        )
        &&& self.integrations.timeout_ms == 5000
        &&& !self.integrations.fail_on_error
        &&& self.performance.is_default()
        &&& self.security.auth_enabled == flag_from(lookup(vars, "AUTH_ENABLED"@), false)
        &&& optional_text(self.security.jwt_secret) == lookup(vars, "JWT_SECRET"@)
        &&& self.security.jwt_algorithm@ == "HS256"@
        &&& self.security.jwt_expiration_seconds == 3600
        &&& self.security.api_key_header@ == "X-API-Key"@
        &&& self.security.rate_limit_enabled
        &&& self.security.rate_limit_rps == 1000
        &&& self.security.rate_limit_burst == 100
    }

    /// Load configuration from environment variables: the default
    /// configuration with the overrides of an environment applied. The
    /// variables are given as they were read, each a name and a value;
    /// nothing is read here, nothing is validated and nothing can fail.
    pub fn from_env(vars: &[(String, String)]) -> (r: Result<Self, ConfigError>)
        ensures
            r matches Ok(config) && config.reads(vars@),
    {
        let mut config = Config::default();
        config.server.port = find_port(vars, "PORT", 3000);
        config.server.grpc_port = find_port(vars, "GRPC_PORT", 50051);
        match find(vars, "HOST") {
            Some(host) => {
                config.server.host = host.clone();
            },
            None => {},
        }
        config.cache.enabled = find_flag(vars, "CACHE_ENABLED", true);
        match find(vars, "REDIS_URL") {
            Some(url) => {
                config.cache.redis_url = Some(url.clone());
                config.cache.l2_enabled = true;
            },
            None => {},
        }
        config.telemetry.enabled = find_flag(vars, "TELEMETRY_ENABLED", true);
        config.telemetry.otlp_endpoint = find_text(vars, "OTLP_ENDPOINT");
        match find(vars, "LOG_LEVEL") {
            Some(level) => {
                config.telemetry.log_level = level.clone();
            },
            None => {},
        }
        config.integrations.shield_url = find_text(vars, "LLM_SHIELD_URL");
        config.integrations.costops_url = find_text(vars, "LLM_COSTOPS_URL");
        config.integrations.governance_url = find_text(vars, "LLM_GOVERNANCE_URL");
        config.integrations.edge_agent_url = find_text(vars, "LLM_EDGE_AGENT_URL");
        config.integrations.incident_manager_url = find_text(vars, "INCIDENT_MANAGER_URL");
        config.integrations.sentinel_url = find_text(vars, "SENTINEL_URL");
        config.integrations.schema_registry_url = find_text(vars, "LLM_SCHEMA_REGISTRY_URL");
        config.integrations.config_manager_url = find_text(vars, "LLM_CONFIG_MANAGER_URL");
        config.integrations.observatory_url = find_text(vars, "LLM_OBSERVATORY_URL");
        config.security.jwt_secret = find_text(vars, "JWT_SECRET");
        config.security.auth_enabled = find_flag(vars, "AUTH_ENABLED", false);
        Ok(config)
    }
}

/// With no variable set, the configuration read from the environment is the
/// default one.
pub proof fn lemma_empty_environment_is_default(config: Config)
    requires
        config.reads(Seq::<(String, String)>::empty()),
    ensures
        config.is_default(),
{
}

/// A default configuration always passes validation.
pub proof fn lemma_default_is_valid(config: Config)
    requires
        config.is_default(),
    ensures
        config.verdict() is Ok,
{
}

} // verus!
