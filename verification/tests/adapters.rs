use policy_integrations::integration::config_manager::AccessValidationRequest;
use policy_integrations::integration::observatory::{
    EventAck, PolicySpan, SpanKind, SpanResult, SpanStatus, TelemetrySignalRequest,
    TelemetrySubscription,
};
use policy_integrations::integration::schema_registry::{
    CompatibilityCheckRequest, CompatibilityLevel, PolicyDocumentSchema, RuleSchema,
};
use policy_integrations::integration::{
    ConfigManagerAdapter, CostOpsClient, DecisionOutcome, EdgeAgentClient, GovernanceClient,
    IncidentManagerClient, IntegrationError, Method, ObservatoryAdapter, Outcome,
    PolicyDecisionRecord, PolicyEvaluationEvent, SchemaRegistryAdapter, SentinelClient,
    ShieldClient,
};
use policy_integrations::number::Float64;
use policy_integrations::text::decimal_text;
use serde_json::Value;
use std::collections::HashMap;
use std::time::Duration;

fn budget() -> Duration {
    Duration::from_secs(5)
}

fn config_manager() -> ConfigManagerAdapter {
    ConfigManagerAdapter::new("http://cfg:7000".to_string(), budget())
}

fn observatory() -> ObservatoryAdapter {
    ObservatoryAdapter::new("http://obs:9000".to_string(), budget())
}

fn schema_registry() -> SchemaRegistryAdapter {
    SchemaRegistryAdapter::new("http://schemas:8081".to_string(), budget())
}

fn event(id: &str) -> PolicyEvaluationEvent {
    PolicyEvaluationEvent {
        event_id: id.to_string(),
        timestamp: "2025-01-01T00:00:00Z".to_string(),
        trace_id: Some("trace-456".to_string()),
        span_id: None,
        policy_id: "policy-789".to_string(),
        rule_id: Some("rule-1".to_string()),
        decision: DecisionOutcome::Allow,
        duration_ms: Float64::from_bits(5.5f64.to_bits()),
        cached: false,
        context: HashMap::new(),
        labels: HashMap::new(),
    }
}

fn event_ack(value: Value) -> Result<EventAck, String> {
    let accepted = match value.get("accepted").and_then(Value::as_bool) {
        Some(accepted) => accepted,
        None => return Err("missing field `accepted`".to_string()),
    };
    let event_id = match value.get("event_id") {
        None | Some(Value::Null) => None,
        Some(Value::String(id)) => Some(id.clone()),
        Some(_) => return Err("invalid type for `event_id`".to_string()),
    };
    Ok(EventAck { accepted, event_id })
}

#[test]
fn config_manager_reads_under_the_default_namespace() {
    let adapter = config_manager();
    let req = adapter.get_config("max_tokens");
    assert_eq!(req.method, Method::Get);
    assert_eq!(req.url, "http://cfg:7000/api/v1/config/policy-engine/max_tokens");
    assert_eq!(req.timeout, budget());
    assert!(req.body.is_none());
}

#[test]
fn config_manager_reads_under_a_custom_namespace() {
    let adapter = ConfigManagerAdapter::with_namespace(
        "http://cfg:7000".to_string(),
        Duration::from_millis(750),
        "tenant-a".to_string(),
    );
    let req = adapter.get_config("max_tokens");
    assert_eq!(req.url, "http://cfg:7000/api/v1/config/tenant-a/max_tokens");
    assert_eq!(req.timeout, Duration::from_millis(750));
    assert_eq!(
        adapter.get_enforcement_params().url,
        "http://cfg:7000/api/v1/config/tenant-a/enforcement"
    );
}

#[test]
fn config_manager_sections_have_their_paths() {
    let adapter = config_manager();
    let base = "http://cfg:7000/api/v1/config/policy-engine/";
    let requests = [
        (adapter.get_enforcement_params(), "enforcement"),
        (adapter.get_rule_thresholds(), "thresholds"),
        (adapter.get_policy_settings(), "policy-settings"),
        (adapter.get_feature_flags(), "features"),
        (adapter.get_config_version(), "version"),
    ];
    for (req, section) in requests {
        assert_eq!(req.method, Method::Get);
        assert_eq!(req.url, format!("{}{}", base, section));
        assert_eq!(req.timeout, budget());
        assert!(req.body.is_none());
    }
}

#[test]
fn config_manager_batches_keys_in_order() {
    let adapter = config_manager();
    let req = adapter.get_configs(&["a", "b.c", "", "a"]);
    assert_eq!(req.method, Method::Post);
    assert_eq!(req.url, "http://cfg:7000/api/v1/config/batch");
    assert_eq!(req.timeout, budget());
    let batch = req.body.unwrap();
    assert_eq!(batch.namespace, "policy-engine");
    assert_eq!(batch.keys, vec!["a", "b.c", "", "a"]);
}

#[test]
fn config_manager_batches_no_keys() {
    let adapter = ConfigManagerAdapter::with_namespace(
        "http://cfg:7000".to_string(),
        budget(),
        "ns".to_string(),
    );
    let req = adapter.get_configs(&[]);
    let batch = req.body.unwrap();
    assert_eq!(batch.namespace, "ns");
    assert!(batch.keys.is_empty());
}

#[test]
fn config_manager_validates_access() {
    let adapter = config_manager();
    let request = AccessValidationRequest {
        subject: "svc-a".to_string(),
        resource: "config/policy-engine".to_string(),
        action: "read".to_string(),
        context: HashMap::new(),
    };
    let req = adapter.validate_access(&request);
    assert_eq!(req.method, Method::Post);
    assert_eq!(req.url, "http://cfg:7000/api/v1/rbac/validate");
    assert_eq!(req.timeout, budget());
    let body = req.body.unwrap();
    assert!(std::ptr::eq(body, &request));
    assert_eq!(adapter.health_check().url, "http://cfg:7000/health");
}

#[test]
fn observatory_emits_one_event() {
    let adapter = observatory();
    let event = event("evt-123");
    let req = adapter.emit_evaluation_event(&event);
    assert_eq!(req.method, Method::Post);
    assert_eq!(req.url, "http://obs:9000/api/v1/events/policy-evaluation");
    assert_eq!(req.timeout, budget());
    assert!(std::ptr::eq(req.body.unwrap(), &event));
}

#[test]
fn an_accepted_event_is_acknowledged() {
    let adapter = observatory();
    let event = event("evt-1");
    let req = adapter.emit_evaluation_event(&event);
    assert_eq!(req.url, "http://obs:9000/api/v1/events/policy-evaluation");
    let outcome = Outcome::Response {
        status: 202,
        body: b"{\"accepted\": true, \"event_id\": \"evt-1\"}".to_vec(),
    };
    let ack = outcome.decode_with(event_ack).unwrap();
    assert!(ack.accepted);
    assert_eq!(ack.event_id, Some("evt-1".to_string()));
}

#[test]
fn an_acknowledgment_without_its_flag_is_a_decode_error() {
    let outcome = Outcome::Response { status: 202, body: b"{\"event_id\": \"evt-1\"}".to_vec() };
    assert!(matches!(
        outcome.decode_with(event_ack),
        Err(IntegrationError::DecodeError { .. })
    ));
}

#[test]
fn observatory_batches_events_under_its_service_name() {
    let adapter = observatory();
    let events = vec![event("evt-1"), event("evt-2"), event("evt-3")];
    let req = adapter.emit_evaluation_events_batch(&events);
    assert_eq!(req.method, Method::Post);
    assert_eq!(req.url, "http://obs:9000/api/v1/events/batch");
    assert_eq!(req.timeout, budget());
    let batch = req.body.unwrap();
    assert_eq!(batch.service, "llm-policy-engine");
    assert_eq!(batch.events.len(), 3);
    assert_eq!(batch.events[0].event_id, "evt-1");
    assert_eq!(batch.events[1].event_id, "evt-2");
    assert_eq!(batch.events[2].event_id, "evt-3");

    let named = ObservatoryAdapter::with_service_name(
        "http://obs:9000".to_string(),
        budget(),
        "edge-gateway".to_string(),
    );
    let req = named.emit_evaluation_events_batch(&[]);
    let batch = req.body.unwrap();
    assert_eq!(batch.service, "edge-gateway");
    assert!(batch.events.is_empty());
}

#[test]
fn observatory_traces_and_spans_have_their_paths() {
    let adapter = observatory();
    let req = adapter.get_trace_context("abc123");
    assert_eq!(req.method, Method::Get);
    assert_eq!(req.url, "http://obs:9000/api/v1/traces/abc123/context");
    assert!(req.body.is_none());

    let span = PolicySpan {
        name: "evaluate".to_string(),
        trace_id: "abc123".to_string(),
        parent_span_id: None,
        start_time: "2025-01-01T00:00:00Z".to_string(),
        kind: SpanKind::Internal,
        attributes: HashMap::new(),
    };
    let req = adapter.register_span(&span);
    assert_eq!(req.method, Method::Post);
    assert_eq!(req.url, "http://obs:9000/api/v1/spans/register");
    assert!(std::ptr::eq(req.body.unwrap(), &span));

    let result = SpanResult {
        end_time: "2025-01-01T00:00:01Z".to_string(),
        status: SpanStatus::Okay,
        status_message: None,
        attributes: HashMap::new(),
    };
    let req = adapter.complete_span("span-9", &result);
    assert_eq!(req.method, Method::Post);
    assert_eq!(req.url, "http://obs:9000/api/v1/spans/span-9/complete");
    assert_eq!(req.timeout, budget());
    assert!(std::ptr::eq(req.body.unwrap(), &result));
}

#[test]
fn observatory_metrics_query_names_the_model_when_given() {
    let adapter = observatory();
    let req = adapter.get_current_metrics("gateway", Some("gpt-4"));
    assert_eq!(req.method, Method::Get);
    assert_eq!(req.url, "http://obs:9000/api/v1/metrics/current?service=gateway&model=gpt-4");
    let req = adapter.get_current_metrics("gateway", None);
    assert_eq!(req.url, "http://obs:9000/api/v1/metrics/current?service=gateway");
    let req = adapter.get_current_metrics("", Some(""));
    assert_eq!(req.url, "http://obs:9000/api/v1/metrics/current?service=&model=");
}

#[test]
fn observatory_writes_have_their_paths() {
    let adapter = observatory();
    let signals = TelemetrySignalRequest {
        service: "gateway".to_string(),
        model: None,
        provider: None,
        time_window_seconds: 300,
        signal_types: Vec::new(),
    };
    let req = adapter.get_telemetry_signals(&signals);
    assert_eq!(req.method, Method::Post);
    assert_eq!(req.url, "http://obs:9000/api/v1/signals/query");
    assert!(std::ptr::eq(req.body.unwrap(), &signals));

    let subscription = TelemetrySubscription {
        name: "errors".to_string(),
        services: vec!["gateway".to_string()],
        signal_types: Vec::new(),
        callback_url: None,
        threshold: None,
    };
    let req = adapter.subscribe_telemetry(&subscription);
    assert_eq!(req.method, Method::Post);
    assert_eq!(req.url, "http://obs:9000/api/v1/subscriptions/telemetry");
    assert!(std::ptr::eq(req.body.unwrap(), &subscription));

    let record = PolicyDecisionRecord {
        decision_id: "d-1".to_string(),
        timestamp: "2025-01-01T00:00:00Z".to_string(),
        user_id: None,
        model: None,
        provider: None,
        policy_id: "policy-789".to_string(),
        decision: DecisionOutcome::Deny,
        latency_ms: Float64::from_bits(1.25f64.to_bits()),
        reason: None,
        metadata: HashMap::new(),
    };
    let req = adapter.record_decision(&record);
    assert_eq!(req.method, Method::Post);
    assert_eq!(req.url, "http://obs:9000/api/v1/analytics/decisions");
    assert!(std::ptr::eq(req.body.unwrap(), &record));

    assert_eq!(adapter.health_check().url, "http://obs:9000/health");
}

#[test]
fn schema_registry_reads_have_their_paths() {
    let adapter = schema_registry();
    let req = adapter.get_schema("policy-doc");
    assert_eq!(req.method, Method::Get);
    assert_eq!(req.url, "http://schemas:8081/api/v1/schemas/policy-doc/latest");
    assert_eq!(req.timeout, budget());
    assert!(req.body.is_none());

    let req = adapter.list_policy_schemas();
    assert_eq!(req.method, Method::Get);
    assert_eq!(req.url, "http://schemas:8081/api/v1/schemas?filter=policy");

    assert_eq!(adapter.health_check().url, "http://schemas:8081/health");
}

#[test]
fn schema_versions_are_written_in_base_ten() {
    let adapter = schema_registry();
    for version in [0u32, 1, 3, 9, 10, 11, 99, 100, 101, 12345, 4_000_000_000, u32::MAX] {
        let req = adapter.get_schema_version("policy-doc", version);
        assert_eq!(req.method, Method::Get);
        assert_eq!(
            req.url,
            format!("http://schemas:8081/api/v1/schemas/policy-doc/versions/{}", version)
        );
    }
    let req = adapter.get_schema_version("policy-doc", 3);
    assert_eq!(req.url, "http://schemas:8081/api/v1/schemas/policy-doc/versions/3");
}

#[test]
fn decimal_text_matches_the_usual_notation() {
    assert_eq!(decimal_text(0), "0");
    assert_eq!(decimal_text(7), "7");
    assert_eq!(decimal_text(10), "10");
    assert_eq!(decimal_text(1009), "1009");
    assert_eq!(decimal_text(u32::MAX), "4294967295");
    let mut n: u32 = 1;
    for _ in 0..32 {
        assert_eq!(decimal_text(n), n.to_string());
        assert_eq!(decimal_text(n - 1), (n - 1).to_string());
        n = n.wrapping_mul(2);
    }
}

#[test]
fn schema_registry_writes_have_their_paths() {
    let adapter = schema_registry();
    let document = PolicyDocumentSchema {
        api_version: "policy.llm-dev-ops.io/v1".to_string(),
        kind: "PolicyDocument".to_string(),
        policies: vec![Value::Null],
    };
    let req = adapter.validate_policy_document(&document);
    assert_eq!(req.method, Method::Post);
    assert_eq!(req.url, "http://schemas:8081/api/v1/validate/policy-document");
    assert!(std::ptr::eq(req.body.unwrap(), &document));

    let rule = RuleSchema {
        id: "r1".to_string(),
        name: "deny all".to_string(),
        condition: Value::Bool(true),
        action: Value::String("deny".to_string()),
    };
    let req = adapter.validate_rule_structure(&rule);
    assert_eq!(req.method, Method::Post);
    assert_eq!(req.url, "http://schemas:8081/api/v1/validate/policy-rule");
    assert!(std::ptr::eq(req.body.unwrap(), &rule));

    let check = CompatibilityCheckRequest {
        subject: "policy-doc".to_string(),
        schema: Value::Null,
        compatibility_level: CompatibilityLevel::Full,
    };
    let req = adapter.check_compatibility(&check);
    assert_eq!(req.method, Method::Post);
    assert_eq!(req.url, "http://schemas:8081/api/v1/compatibility/check");
    assert_eq!(req.timeout, budget());
    assert!(std::ptr::eq(req.body.unwrap(), &check));
}

#[test]
fn a_slow_schema_registry_times_out_on_the_adapter_budget() {
    let adapter =
        SchemaRegistryAdapter::new("http://schemas:8081".to_string(), Duration::from_secs(2));
    let req = adapter.get_schema("policy-doc");
    assert_eq!(req.url, "http://schemas:8081/api/v1/schemas/policy-doc/latest");
    assert_eq!(req.timeout, Duration::from_secs(2));
    assert_ne!(req.timeout, Duration::from_secs(10));
    let result = Outcome::TimedOut.into_json();
    assert!(matches!(result, Err(IntegrationError::Timeout)));
}

#[test]
fn plain_clients_share_the_pattern() {
    let shield = ShieldClient::new("http://shield".to_string(), budget());
    assert_eq!(shield.get("/scan").url, "http://shield/scan");
    assert_eq!(shield.post("/scan", 1u8).body, Some(1u8));
    assert_eq!(shield.health_check().url, "http://shield/health");

    let costops = CostOpsClient::new("http://costops".to_string(), budget());
    assert_eq!(costops.get("/budget").url, "http://costops/budget");
    assert_eq!(costops.post("/budget", 2u8).method, Method::Post);
    assert_eq!(costops.health_check().url, "http://costops/health");

    let governance = GovernanceClient::new("http://gov".to_string(), budget());
    assert_eq!(governance.get("/audit").url, "http://gov/audit");
    assert_eq!(governance.post("/audit", 3u8).url, "http://gov/audit");
    assert_eq!(governance.health_check().url, "http://gov/health");

    let edge = EdgeAgentClient::new("http://edge".to_string(), budget());
    assert_eq!(edge.get("/policies").url, "http://edge/policies");
    assert_eq!(edge.post("/policies", 4u8).timeout, budget());
    assert_eq!(edge.health_check().url, "http://edge/health");

    let incidents = IncidentManagerClient::new("http://incidents".to_string(), budget());
    assert_eq!(incidents.get("/alerts").url, "http://incidents/alerts");
    assert_eq!(incidents.post("/alerts", 5u8).body, Some(5u8));
    assert_eq!(incidents.health_check().url, "http://incidents/health");

    let sentinel = SentinelClient::new("http://sentinel".to_string(), budget());
    assert_eq!(sentinel.get("/events").url, "http://sentinel/events");
    assert_eq!(sentinel.post("/events", 6u8).body, Some(6u8));
    assert_eq!(sentinel.health_check().method, Method::Get);
    assert_eq!(sentinel.health_check().timeout, budget());
}
