//! Integration clients for the sibling services of the platform.
//!
//! - **Shield**: prompt injection and threat detection
//! - **CostOps**: budget enforcement and cost tracking
//! - **Governance**: compliance checking and audit logging
//! - **Edge Agent**: policy distribution to edge locations
//! - **Incident Manager**: policy violation alerting
//! - **Sentinel**: security monitoring
//!
//! Three further adapters consume from upstream services:
//!
//! - **Schema Registry**: schema validation for policy documents and rules
//! - **Config Manager**: dynamic configuration and enforcement parameters
//! - **Observatory**: telemetry signals and trace context propagation
//!
//! [`Integrations`] holds the adapters whose URL is configured, and no others.

pub mod client;
pub mod config_manager;
pub mod costops;
pub mod edge_agent;
pub mod governance;
pub mod incident_manager;
pub mod observatory;
pub mod schema_registry;
pub mod sentinel;
pub mod shield;

pub use client::{
    decoded, Endpoint, Fault, IntegrationClient, IntegrationError, IntegrationResult, Method,
    Outcome, Reply, Request, RequestView,
};
pub use config_manager::{
    ConfigManagerAdapter, ConfigValue, ConfigValueType, EnforcementParams, FeatureFlags,
    PolicySettings, RuleThresholds,
};
pub use costops::CostOpsClient;
pub use edge_agent::EdgeAgentClient;
pub use governance::GovernanceClient;
pub use incident_manager::IncidentManagerClient;
pub use observatory::{
    DecisionOutcome, ObservatoryAdapter, PolicyDecisionRecord, PolicyEvaluationEvent,
    TelemetrySignals, TraceContext,
};
pub use schema_registry::{
    SchemaDefinition, SchemaRegistryAdapter, SchemaType, ValidationResult,
};
pub use sentinel::SentinelClient;
pub use shield::ShieldClient;

use crate::config::IntegrationsConfig;
use crate::duration::duration_of_millis;
use config_manager::ConfigManagerView;
use observatory::ObservatoryView;
use std::sync::Arc;
use std::time::Duration;
use vstd::prelude::*;

verus! {

/// Collection of all integration clients.
///
/// A slot holds an adapter exactly when the URL of its service is
/// configured. An empty slot stays empty: nothing stands in for a service
/// that is not there.
pub struct Integrations {
    /// Shield client for threat detection
    pub shield: Option<Arc<ShieldClient>>,
    /// CostOps client for budget tracking
    pub costops: Option<Arc<CostOpsClient>>,
    /// Governance client for compliance
    pub governance: Option<Arc<GovernanceClient>>,
    /// Edge Agent client for policy distribution
    pub edge_agent: Option<Arc<EdgeAgentClient>>,
    /// Incident Manager client for alerting
    pub incident_manager: Option<Arc<IncidentManagerClient>>,
    /// Sentinel client for security monitoring
    pub sentinel: Option<Arc<SentinelClient>>,
    /// Schema Registry adapter for schema validation
    pub schema_registry: Option<Arc<SchemaRegistryAdapter>>,
    /// Config Manager adapter for dynamic configuration
    pub config_manager: Option<Arc<ConfigManagerAdapter>>,
    /// Observatory adapter for telemetry and tracing
    pub observatory: Option<Arc<ObservatoryAdapter>>,
}

/// The nine services that a registry has a slot for.
pub enum Service {
    /// Threat detection
    Shield,
    /// Budget tracking
    CostOps,
    /// Compliance
    Governance,
    /// Policy distribution
    EdgeAgent,
    /// Alerting
    IncidentManager,
    /// Security monitoring
    Sentinel,
    /// Schema validation, upstream
    SchemaRegistry,
    /// Dynamic configuration, upstream
    ConfigManager,
    /// Telemetry and tracing, upstream
    Observatory,
}

impl Service {
    /// Whether the service is one of the three that the engine consumes
    /// from.
    pub open spec fn is_upstream(self) -> bool {
        self is SchemaRegistry || self is ConfigManager || self is Observatory
    }
}

/// A registry, each adapter taken by its view.
pub struct Registry {
    pub shield: Option<Endpoint>,
    pub costops: Option<Endpoint>,
    pub governance: Option<Endpoint>,
    pub edge_agent: Option<Endpoint>,
    pub incident_manager: Option<Endpoint>,
    pub sentinel: Option<Endpoint>,
    pub schema_registry: Option<Endpoint>,
    pub config_manager: Option<ConfigManagerView>,
    pub observatory: Option<ObservatoryView>,
}

impl Registry {
    /// Whether the slot of a service holds an adapter.
    pub open spec fn has(self, service: Service) -> bool {
        match service {
            Service::Shield => self.shield is Some,
            Service::CostOps => self.costops is Some,
            Service::Governance => self.governance is Some,
            Service::EdgeAgent => self.edge_agent is Some,
            Service::IncidentManager => self.incident_manager is Some,
            Service::Sentinel => self.sentinel is Some,
            Service::SchemaRegistry => self.schema_registry is Some,
            Service::ConfigManager => self.config_manager is Some,
            Service::Observatory => self.observatory is Some,
        }
    }

    /// The endpoint of the adapter in the slot of a service.
    pub open spec fn endpoint(self, service: Service) -> Option<Endpoint> {
        match service {
            Service::Shield => self.shield,
            Service::CostOps => self.costops,
            Service::Governance => self.governance,
            Service::EdgeAgent => self.edge_agent,
            Service::IncidentManager => self.incident_manager,
            Service::Sentinel => self.sentinel,
            Service::SchemaRegistry => self.schema_registry,
            Service::ConfigManager => match self.config_manager {
                Some(adapter) => Some(adapter.client),
                None => None,
            },
            Service::Observatory => match self.observatory {
                Some(adapter) => Some(adapter.client),
                None => None,
            },
        }
    }

    /// Whether any slot holds an adapter.
    pub open spec fn any_configured(self) -> bool {
        exists|service: Service| self.has(service)
    }

    /// Whether the slot of any upstream service holds an adapter.
    pub open spec fn any_upstream_configured(self) -> bool {
        exists|service: Service| service.is_upstream() && self.has(service)
    }
}

impl View for Integrations {
    type V = Registry;

    open spec fn view(&self) -> Registry {
        Registry {
            shield: match self.shield {
                Some(c) => Some(c@),
                None => None,
            },
            costops: match self.costops {
                Some(c) => Some(c@),
                None => None,
            },
            governance: match self.governance {
                Some(c) => Some(c@),
                None => None,
            },
            edge_agent: match self.edge_agent {
                Some(c) => Some(c@),
                None => None,
            },
            incident_manager: match self.incident_manager {
                Some(c) => Some(c@),
                None => None,
            },
            sentinel: match self.sentinel {
                Some(c) => Some(c@),
                None => None,
            },
            schema_registry: match self.schema_registry {
                Some(c) => Some(c@),
                None => None,
            },
            config_manager: match self.config_manager {
                Some(c) => Some(c@),
                None => None,
            },
            observatory: match self.observatory {
                Some(c) => Some(c@),
                None => None,
            },
        }
    }
}

/// The endpoint that a configured URL and the shared budget make.
pub open spec fn endpoint_at(url: Option<String>, timeout: Duration) -> Option<Endpoint> {
    match url {
        Some(u) => Some(Endpoint { base_url: u@, timeout }),
        None => None,
    }
}

impl IntegrationsConfig {
    /// The configured URL of a service.
    pub open spec fn url_of(&self, service: Service) -> Option<String> {
        match service {
            Service::Shield => self.shield_url,
            Service::CostOps => self.costops_url,
            Service::Governance => self.governance_url,
            Service::EdgeAgent => self.edge_agent_url,
            Service::IncidentManager => self.incident_manager_url,
            Service::Sentinel => self.sentinel_url,
            Service::SchemaRegistry => self.schema_registry_url,
            Service::ConfigManager => self.config_manager_url,
            Service::Observatory => self.observatory_url,
        }
    }

    /// The registry that this configuration calls for: an adapter at each
    /// configured URL, each with the shared budget, the Config Manager
    /// adapter under the namespace `policy-engine` and the Observatory
    /// adapter reporting as `llm-policy-engine`.
    pub open spec fn registry(&self) -> Registry {
        let timeout = duration_of_millis(self.timeout_ms);
        Registry {
            shield: endpoint_at(self.shield_url, timeout),
            costops: endpoint_at(self.costops_url, timeout),
            governance: endpoint_at(self.governance_url, timeout),
            edge_agent: endpoint_at(self.edge_agent_url, timeout),
            incident_manager: endpoint_at(self.incident_manager_url, timeout),
            sentinel: endpoint_at(self.sentinel_url, timeout),
            schema_registry: endpoint_at(self.schema_registry_url, timeout),
            config_manager: match endpoint_at(self.config_manager_url, timeout) {
                Some(client) => Some(ConfigManagerView { client, namespace: "policy-engine"@ }),
                None => None,
            },
            observatory: match endpoint_at(self.observatory_url, timeout) {
                Some(client) => Some(
                    ObservatoryView { client, service_name: "llm-policy-engine"@ },
                ),
                None => None,
            },
        }
    }
}

impl Integrations {
    /// Create integrations from configuration. This always succeeds and
    /// sends nothing: a URL is taken as it is, and a bad one shows at first
    /// use.
    pub fn from_config(config: &IntegrationsConfig) -> (integrations: Self)
        ensures
            integrations@ == config.registry(),
    {
        Integrations {
            shield: match &config.shield_url {
                Some(url) => Some(Arc::new(ShieldClient::new(url.clone(), config.timeout()))),
                None => None,
            },
            costops: match &config.costops_url {
                Some(url) => Some(Arc::new(CostOpsClient::new(url.clone(), config.timeout()))),
                None => None,
            },
            governance: match &config.governance_url {
                Some(url) => Some(Arc::new(GovernanceClient::new(url.clone(), config.timeout()))),
                None => None,
            },
            edge_agent: match &config.edge_agent_url {
                Some(url) => Some(Arc::new(EdgeAgentClient::new(url.clone(), config.timeout()))),
                None => None,
            },
            incident_manager: match &config.incident_manager_url {
                Some(url) => Some(
                    Arc::new(IncidentManagerClient::new(url.clone(), config.timeout())),
                ),
                None => None,
            },
            sentinel: match &config.sentinel_url {
                Some(url) => Some(Arc::new(SentinelClient::new(url.clone(), config.timeout()))),
                None => None,
            },
            schema_registry: match &config.schema_registry_url {
                Some(url) => Some(
                    Arc::new(SchemaRegistryAdapter::new(url.clone(), config.timeout())),
                ),
                None => None,
            },
            config_manager: match &config.config_manager_url {
                Some(url) => Some(
                    Arc::new(ConfigManagerAdapter::new(url.clone(), config.timeout())),
                ),
                None => None,
            },
            observatory: match &config.observatory_url {
                Some(url) => Some(Arc::new(ObservatoryAdapter::new(url.clone(), config.timeout()))),
                None => None,
            },
        }
    }

    /// Check if any integrations are configured.
    pub fn any_configured(&self) -> (any: bool)
        ensures
            any == self@.any_configured(),
    {
        let any = self.shield.is_some() || self.costops.is_some() || self.governance.is_some()
            || self.edge_agent.is_some() || self.incident_manager.is_some()
            || self.sentinel.is_some() || self.schema_registry.is_some()
            || self.config_manager.is_some() || self.observatory.is_some();
        proof {
            lemma_any_configured(self@);
        }
        any
    }

    /// Check if any of the three upstream adapters are configured.
    pub fn any_upstream_configured(&self) -> (any: bool)
        ensures
            any == self@.any_upstream_configured(),
    {
        let any = self.schema_registry.is_some() || self.config_manager.is_some()
            || self.observatory.is_some();
        proof {
            lemma_any_upstream_configured(self@);
        }
        any
    }
}

/// Some slot holds an adapter exactly when one of the nine does.
pub proof fn lemma_any_configured(registry: Registry)
    ensures
        registry.any_configured() <==> (registry.shield is Some || registry.costops is Some
            || registry.governance is Some || registry.edge_agent is Some
            || registry.incident_manager is Some || registry.sentinel is Some
            || registry.schema_registry is Some || registry.config_manager is Some
            || registry.observatory is Some),
{
    if registry.shield is Some {
        assert(registry.has(Service::Shield));
    }
    if registry.costops is Some {
        assert(registry.has(Service::CostOps));
    }
    if registry.governance is Some {
        assert(registry.has(Service::Governance));
    }
    if registry.edge_agent is Some {
        assert(registry.has(Service::EdgeAgent));
    }
    if registry.incident_manager is Some {
        assert(registry.has(Service::IncidentManager));
    }
    if registry.sentinel is Some {
        assert(registry.has(Service::Sentinel));
    }
    if registry.schema_registry is Some {
        assert(registry.has(Service::SchemaRegistry));
    }
    if registry.config_manager is Some {
        assert(registry.has(Service::ConfigManager));
    }
    if registry.observatory is Some {
        assert(registry.has(Service::Observatory));
    }
}

/// Some upstream slot holds an adapter exactly when one of the three does.
pub proof fn lemma_any_upstream_configured(registry: Registry)
    ensures
        registry.any_upstream_configured() <==> (registry.schema_registry is Some
            || registry.config_manager is Some || registry.observatory is Some),
{
    if registry.schema_registry is Some {
        assert(Service::SchemaRegistry.is_upstream() && registry.has(Service::SchemaRegistry));
    }
    if registry.config_manager is Some {
        assert(Service::ConfigManager.is_upstream() && registry.has(Service::ConfigManager));
    }
    if registry.observatory is Some {
        assert(Service::Observatory.is_upstream() && registry.has(Service::Observatory));
    }
}

/// In the registry built from a configuration, the slot of a service holds
/// an adapter exactly when the URL of that service is set; the adapter then
/// has that URL and the shared budget. The two aggregate checks say exactly
/// whether some URL, or some upstream URL, is set.
pub proof fn lemma_registry_follows_config(config: IntegrationsConfig, service: Service)
    ensures
        config.registry().has(service) <==> config.url_of(service) is Some,
        config.registry().endpoint(service) == endpoint_at(
            config.url_of(service),
            duration_of_millis(config.timeout_ms),
        ),
        config.registry().any_configured() <==> exists|s: Service| config.url_of(s) is Some,
        config.registry().any_upstream_configured() <==> exists|s: Service|
            s.is_upstream() && config.url_of(s) is Some,
{
    let registry = config.registry();
    assert forall|s: Service| registry.has(s) == (#[trigger] config.url_of(s) is Some) by {}
    if registry.any_configured() {
        let s = choose|s: Service| registry.has(s);
        assert(config.url_of(s) is Some);
    }
    if exists|s: Service| config.url_of(s) is Some {
        let s = choose|s: Service| config.url_of(s) is Some;
        assert(registry.has(s));
    }
    if registry.any_upstream_configured() {
        let s = choose|s: Service| s.is_upstream() && registry.has(s);
        assert(s.is_upstream() && config.url_of(s) is Some);
    }
    if exists|s: Service| s.is_upstream() && config.url_of(s) is Some {
        let s = choose|s: Service| s.is_upstream() && config.url_of(s) is Some;
        assert(s.is_upstream() && registry.has(s));
    }
}

/// An upstream adapter is an adapter: where the upstream check says yes, so
/// does the general one.
pub proof fn lemma_upstream_is_configured(registry: Registry)
    requires
        registry.any_upstream_configured(),
    ensures
        registry.any_configured(),
{
    let s = choose|s: Service| s.is_upstream() && registry.has(s);
    assert(registry.has(s));
}

} // verus!
