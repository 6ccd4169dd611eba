use policy_integrations::config::IntegrationsConfig;
use policy_integrations::integration::Integrations;
use std::time::Duration;

fn populated(registry: &Integrations) -> [bool; 9] {
    [
        registry.shield.is_some(),
        registry.costops.is_some(),
        registry.governance.is_some(),
        registry.edge_agent.is_some(),
        registry.incident_manager.is_some(),
        registry.sentinel.is_some(),
        registry.schema_registry.is_some(),
        registry.config_manager.is_some(),
        registry.observatory.is_some(),
    ]
}

fn with_urls(mask: u32) -> IntegrationsConfig {
    let url = |bit: u32, name: &str| {
        if mask & (1 << bit) != 0 {
            Some(format!("http://{}:80", name))
        } else {
            None
        }
    };
    let mut config = IntegrationsConfig::default();
    config.shield_url = url(0, "shield");
    config.costops_url = url(1, "costops");
    config.governance_url = url(2, "governance");
    config.edge_agent_url = url(3, "edge");
    config.incident_manager_url = url(4, "incidents");
    config.sentinel_url = url(5, "sentinel");
    config.schema_registry_url = url(6, "schemas");
    config.config_manager_url = url(7, "cfg");
    config.observatory_url = url(8, "obs");
    config
}

#[test]
fn nothing_configured_leaves_every_slot_empty() {
    let registry = Integrations::from_config(&IntegrationsConfig::default());
    assert_eq!(populated(&registry), [false; 9]);
    assert!(!registry.any_configured());
    assert!(!registry.any_upstream_configured());
}

#[test]
fn only_the_observatory_is_configured() {
    let mut config = IntegrationsConfig::default();
    config.observatory_url = Some("http://obs:9000".to_string());
    let registry = Integrations::from_config(&config);
    assert!(registry.observatory.is_some());
    assert!(registry.shield.is_none());
    assert!(registry.costops.is_none());
    assert!(registry.governance.is_none());
    assert!(registry.edge_agent.is_none());
    assert!(registry.incident_manager.is_none());
    assert!(registry.sentinel.is_none());
    assert!(registry.schema_registry.is_none());
    assert!(registry.config_manager.is_none());
    assert!(registry.any_configured());
    assert!(registry.any_upstream_configured());

    let observatory = registry.observatory.unwrap();
    let probe = observatory.health_check();
    assert_eq!(probe.url, "http://obs:9000/health");
    assert_eq!(probe.timeout, Duration::from_millis(5000));
}

#[test]
fn slots_follow_urls_for_every_combination() {
    for mask in 0..512u32 {
        let config = with_urls(mask);
        let registry = Integrations::from_config(&config);
        let slots = populated(&registry);
        for bit in 0..9usize {
            assert_eq!(slots[bit], mask & (1 << bit) != 0);
        }
        assert_eq!(registry.any_configured(), mask != 0);
        assert_eq!(registry.any_upstream_configured(), mask & 0b1_1100_0000 != 0);
    }
}

#[test]
fn a_downstream_service_alone_is_not_upstream() {
    let mut config = IntegrationsConfig::default();
    config.shield_url = Some("http://shield:8000".to_string());
    let registry = Integrations::from_config(&config);
    assert!(registry.shield.is_some());
    assert!(registry.any_configured());
    assert!(!registry.any_upstream_configured());
}

#[test]
fn adapters_get_their_url_and_the_shared_budget() {
    let mut config = with_urls(0b1_1111_1111);
    config.timeout_ms = 1234;
    let registry = Integrations::from_config(&config);
    let budget = Duration::from_millis(1234);

    let probe = registry.shield.unwrap().health_check();
    assert_eq!((probe.url.as_str(), probe.timeout), ("http://shield:80/health", budget));
    let probe = registry.costops.unwrap().health_check();
    assert_eq!((probe.url.as_str(), probe.timeout), ("http://costops:80/health", budget));
    let probe = registry.governance.unwrap().health_check();
    assert_eq!((probe.url.as_str(), probe.timeout), ("http://governance:80/health", budget));
    let probe = registry.edge_agent.unwrap().health_check();
    assert_eq!((probe.url.as_str(), probe.timeout), ("http://edge:80/health", budget));
    let probe = registry.incident_manager.unwrap().health_check();
    assert_eq!((probe.url.as_str(), probe.timeout), ("http://incidents:80/health", budget));
    let probe = registry.sentinel.unwrap().health_check();
    assert_eq!((probe.url.as_str(), probe.timeout), ("http://sentinel:80/health", budget));
    let probe = registry.schema_registry.unwrap().health_check();
    assert_eq!((probe.url.as_str(), probe.timeout), ("http://schemas:80/health", budget));

    let config_manager = registry.config_manager.unwrap();
    let req = config_manager.get_config("k");
    assert_eq!(req.url, "http://cfg:80/api/v1/config/policy-engine/k");
    assert_eq!(req.timeout, budget);

    let observatory = registry.observatory.unwrap();
    let req = observatory.emit_evaluation_events_batch(&[]);
    assert_eq!(req.url, "http://obs:80/api/v1/events/batch");
    assert_eq!(req.timeout, budget);
    assert_eq!(req.body.unwrap().service, "llm-policy-engine");
}

#[test]
fn a_url_is_taken_as_it_is() {
    let mut config = IntegrationsConfig::default();
    config.sentinel_url = Some("not a url".to_string());
    let registry = Integrations::from_config(&config);
    let sentinel = registry.sentinel.unwrap();
    assert_eq!(sentinel.get("/x").url, "not a url/x");
}
