//! LLM Observatory integration adapter.
//!
//! A thin runtime adapter for consuming telemetry signals from the
//! Observatory and emitting policy evaluation events to it, with trace
//! context attached to policy decisions. The dependency runs one way: the
//! policy engine consumes from the Observatory and exports nothing to it.

use super::client::{Endpoint, IntegrationClient, Request};
use crate::number::Float64;
use std::collections::HashMap;
use std::time::Duration;
use vstd::prelude::*;
use vstd::string::StringExecFns;

verus! {

/// Client for integrating with LLM Observatory.
///
/// It consumes telemetry signals from upstream services, emits policy
/// evaluation events and attaches trace context to policy decisions.
#[derive(Debug)]
pub struct ObservatoryAdapter {
    client: IntegrationClient,
    /// Service name for telemetry attribution
    service_name: String,
}

/// An Observatory adapter: its endpoint and the service it reports as.
pub struct ObservatoryView {
    pub client: Endpoint,
    pub service_name: Seq<char>,
}

impl View for ObservatoryAdapter {
    type V = ObservatoryView;

    closed spec fn view(&self) -> ObservatoryView {
        ObservatoryView { client: self.client@, service_name: self.service_name@ }
    }
}

/// The path of the context of one trace.
pub open spec fn trace_context_path(trace_id: Seq<char>) -> Seq<char> {
    "/api/v1/traces/"@ + trace_id + "/context"@
}

/// The path on which one span is completed.
pub open spec fn span_completion_path(span_id: Seq<char>) -> Seq<char> {
    "/api/v1/spans/"@ + span_id + "/complete"@
}

/// The path, with its query, of the current metrics of a service and, where
/// one is named, of a model.
pub open spec fn current_metrics_path(service: Seq<char>, model: Option<Seq<char>>) -> Seq<char> {
    match model {
        Some(m) => "/api/v1/metrics/current?service="@ + service + "&model="@ + m,
        None => "/api/v1/metrics/current?service="@ + service,
    }
}

/// The model that a query names, as a sequence.
pub open spec fn model_view(model: Option<&str>) -> Option<Seq<char>> {
    match model {
        Some(m) => Some(m@),
        None => None,
    }
}

impl ObservatoryAdapter {
    /// Create a new Observatory adapter, reporting as `llm-policy-engine`.
    pub fn new(base_url: String, timeout: Duration) -> (adapter: Self)
        ensures
            adapter@ == (ObservatoryView {
                client: Endpoint { base_url: base_url@, timeout },
                service_name: "llm-policy-engine"@,
            }),
    {
        ObservatoryAdapter {
            client: IntegrationClient::new(base_url, timeout),
            service_name: String::from_str("llm-policy-engine"),
        }
    }

    /// Create a new Observatory adapter with a custom service name.
    pub fn with_service_name(base_url: String, timeout: Duration, service_name: String) -> (adapter:
        Self)
        ensures
            adapter@ == (ObservatoryView {
                client: Endpoint { base_url: base_url@, timeout },
                service_name: service_name@,
            }),
    {
        ObservatoryAdapter { client: IntegrationClient::new(base_url, timeout), service_name }
    }

    /// Emit a policy evaluation event. The answer is an [`EventAck`].
    pub fn emit_evaluation_event<'a>(&self, event: &'a PolicyEvaluationEvent) -> (req: Request<
        &'a PolicyEvaluationEvent,
    >)
        ensures
            req@ == self@.client.post("/api/v1/events/policy-evaluation"@, event),
    {
        self.client.post("/api/v1/events/policy-evaluation", event)
    }

    /// Emit a batch of policy evaluation events, under the adapter's service
    /// name and in the order given. The answer is a [`BatchEventAck`].
    pub fn emit_evaluation_events_batch<'a>(&self, events: &'a [PolicyEvaluationEvent]) -> (req:
        Request<BatchEventRequest<'a>>)
        ensures
            req.body matches Some(batch) && req@ == self@.client.post(
                "/api/v1/events/batch"@,
                batch,
            ) && batch.service@ == self@.service_name && batch.events@ == events@,
    {
        let batch = BatchEventRequest { service: self.service_name.clone(), events };
        self.client.post("/api/v1/events/batch", batch)
    }

    /// Get the distributed trace context of a request, for correlation
    /// across services. The answer is a [`TraceContext`].
    ///
    /// The trace id goes into the path as it is.
    pub fn get_trace_context(&self, trace_id: &str) -> (req: Request<()>)
        ensures
            req@ == self@.client.get(trace_context_path(trace_id@)),
    {
        let mut path = String::from_str("/api/v1/traces/");
        path.append(trace_id);
        path.append("/context");
        self.client.get(path.as_str())
    }

    /// Register a trace span for policy evaluation. The answer is a
    /// [`SpanRegistration`].
    pub fn register_span<'a>(&self, span: &'a PolicySpan) -> (req: Request<&'a PolicySpan>)
        ensures
            req@ == self@.client.post("/api/v1/spans/register"@, span),
    {
        self.client.post("/api/v1/spans/register", span)
    }

    /// Complete a trace span with results. The answer carries nothing.
    ///
    /// The span id goes into the path as it is.
    pub fn complete_span<'a>(&self, span_id: &str, result: &'a SpanResult) -> (req: Request<
        &'a SpanResult,
    >)
        ensures
            req@ == self@.client.post(span_completion_path(span_id@), result),
    {
        let mut path = String::from_str("/api/v1/spans/");
        path.append(span_id);
        path.append("/complete");
        self.client.post(path.as_str(), result)
    }

    /// Get aggregated telemetry that may influence policy decisions, such as
    /// error rates and latency percentiles. The answer is a
    /// [`TelemetrySignals`].
    pub fn get_telemetry_signals<'a>(&self, request: &'a TelemetrySignalRequest) -> (req: Request<
        &'a TelemetrySignalRequest,
    >)
        ensures
            req@ == self@.client.post("/api/v1/signals/query"@, request),
    {
        self.client.post("/api/v1/signals/query", request)
    }

    /// Get current metrics for a service/model combination. The answer is a
    /// [`CurrentMetrics`].
    ///
    /// Both names go into the query as they are.
    pub fn get_current_metrics(&self, service: &str, model: Option<&str>) -> (req: Request<()>)
        ensures
            req@ == self@.client.get(current_metrics_path(service@, model_view(model))),
    {
        let mut path = String::from_str("/api/v1/metrics/current?service=");
        path.append(service);
        match model {
            Some(m) => {
                path.append("&model=");
                path.append(m);
            },
            None => {},
        }
        self.client.get(path.as_str())
    }

    /// Subscribe to real-time telemetry updates. The answer is a
    /// [`SubscriptionAck`].
    pub fn subscribe_telemetry<'a>(&self, request: &'a TelemetrySubscription) -> (req: Request<
        &'a TelemetrySubscription,
    >)
        ensures
            req@ == self@.client.post("/api/v1/subscriptions/telemetry"@, request),
    {
        self.client.post("/api/v1/subscriptions/telemetry", request)
    }

    /// Record a policy decision for analytics. The answer is a [`RecordAck`].
    pub fn record_decision<'a>(&self, decision: &'a PolicyDecisionRecord) -> (req: Request<
        &'a PolicyDecisionRecord,
    >)
        ensures
            req@ == self@.client.post("/api/v1/analytics/decisions"@, decision),
    {
        self.client.post("/api/v1/analytics/decisions", decision)
    }

    /// The probe that asks whether the Observatory is alive.
    pub fn health_check(&self) -> (req: Request<()>)
        ensures
            req@ == self@.client.probe(),
    {
        self.client.health_check()
    }
}

/// A policy evaluation event for Observatory.
#[derive(Debug, Clone)]
pub struct PolicyEvaluationEvent {
    /// Event ID
    pub event_id: String,
    /// Timestamp (ISO 8601)
    pub timestamp: String,
    /// Trace ID for distributed tracing
    pub trace_id: Option<String>,
    /// Span ID
    pub span_id: Option<String>,
    /// Policy ID evaluated
    pub policy_id: String,
    /// Rule ID matched (if any)
    pub rule_id: Option<String>,
    /// Decision result
    pub decision: DecisionOutcome,
    /// Evaluation duration in milliseconds
    pub duration_ms: Float64,
    /// Whether result was cached
    pub cached: bool,
    /// Additional context
    pub context: HashMap<String, String>,
    /// Labels for filtering
    pub labels: HashMap<String, String>,
}

/// Decision outcome for telemetry.
#[derive(Debug, Clone, Copy, PartialEq, Eq, Structural)]
pub enum DecisionOutcome {
    /// Request allowed
    Allow,
    /// Request denied
    Deny,
    /// Warning issued
    Warn,
    /// Request modified
    Modify,
    /// Error during evaluation
    Error,
}

/// Batch event request: the events of one service, in order.
#[derive(Debug, Clone)]
pub struct BatchEventRequest<'a> {
    pub service: String,
    pub events: &'a [PolicyEvaluationEvent],
}

/// Acknowledgment for a single event.
#[derive(Debug, Clone)]
pub struct EventAck {
    /// Whether the event was accepted
    pub accepted: bool,
    /// Event ID assigned by Observatory
    pub event_id: Option<String>,
}

/// Acknowledgment for a batch of events.
#[derive(Debug, Clone)]
pub struct BatchEventAck {
    /// Number of events accepted
    pub accepted_count: u64,
    /// Number of events rejected
    pub rejected_count: u64,
    /// IDs of rejected events
    pub rejected_ids: Vec<String>,
}

/// Trace context for distributed tracing.
#[derive(Debug, Clone)]
pub struct TraceContext {
    /// Trace ID
    pub trace_id: String,
    /// Parent span ID
    pub parent_span_id: Option<String>,
    /// Trace flags
    pub trace_flags: u8,
    /// Trace state (W3C format)
    pub trace_state: Option<String>,
    /// Baggage items
    pub baggage: HashMap<String, String>,
}

impl TraceContext {
    /// Whether the lowest trace flag, the sampling flag, is set.
    pub open spec fn sampled(&self) -> bool {
        self.trace_flags % 2 == 1
    }

    /// Create a new trace context with a trace ID. It is sampled, has no
    /// parent and carries nothing.
    pub fn new(trace_id: String) -> (ctx: Self)
        ensures
            ctx.trace_id == trace_id,
            ctx.parent_span_id is None,
            ctx.trace_flags == 1,
            ctx.trace_state is None,
            ctx.baggage@ == Map::<String, String>::empty(),
            ctx.sampled(),
    {
        TraceContext {
            trace_id,
            parent_span_id: None,
            trace_flags: 1,
            trace_state: None,
            baggage: HashMap::new(),
        }
    }

    /// Check if this trace is sampled.
    pub fn is_sampled(&self) -> (sampled: bool)
        ensures
            sampled == self.sampled(),
    {
        let flags: u8 = self.trace_flags;
        assert((flags & 0x01 != 0) == (flags % 2 == 1)) by (bit_vector);
        flags & 0x01 != 0
    }
}

/// A policy evaluation span.
#[derive(Debug, Clone)]
pub struct PolicySpan {
    /// Span name
    pub name: String,
    /// Trace ID
    pub trace_id: String,
    /// Parent span ID
    pub parent_span_id: Option<String>,
    /// Start timestamp (ISO 8601)
    pub start_time: String,
    /// Span kind
    pub kind: SpanKind,
    /// Span attributes
    pub attributes: HashMap<String, serde_json::Value>,
}

/// Span kind enumeration.
#[derive(Debug, Clone, Copy, PartialEq, Eq, Structural)]
pub enum SpanKind {
    /// Internal operation
    Internal,
    /// Server-side operation
    Server,
    /// Client-side operation
    Client,
    /// Producer operation
    Producer,
    /// Consumer operation
    Consumer,
}

impl Default for SpanKind {
    fn default() -> (r: Self)
        ensures
            r == SpanKind::Internal,
    {
        SpanKind::Internal
    }
}

/// Span registration response.
#[derive(Debug, Clone)]
pub struct SpanRegistration {
    /// Assigned span ID
    pub span_id: String,
    /// Registration timestamp
    pub registered_at: String,
}

/// Span completion result.
#[derive(Debug, Clone)]
pub struct SpanResult {
    /// End timestamp (ISO 8601)
    pub end_time: String,
    /// Status code
    pub status: SpanStatus,
    /// Status message
    pub status_message: Option<String>,
    /// Final attributes
    pub attributes: HashMap<String, serde_json::Value>,
}

/// Span status codes.
#[derive(Debug, Clone, Copy, PartialEq, Eq, Structural)]
pub enum SpanStatus {
    /// Unset status
    Unset,
    /// OK status
    Okay,
    /// Error status
    Error,
}

impl Default for SpanStatus {
    fn default() -> (r: Self)
        ensures
            r == SpanStatus::Unset,
    {
        SpanStatus::Unset
    }
}

/// Request for telemetry signals.
#[derive(Debug, Clone)]
pub struct TelemetrySignalRequest {
    /// Service to query
    pub service: String,
    /// Model to filter by
    pub model: Option<String>,
    /// Provider to filter by
    pub provider: Option<String>,
    /// Time window in seconds
    pub time_window_seconds: u64,
    /// Signal types to retrieve
    pub signal_types: Vec<SignalType>,
}

/// The time window of a query that names none: five minutes, in seconds.
pub fn default_time_window() -> (r: u64)
    ensures
        r == 300,
{
    300
}

/// Types of telemetry signals.
#[derive(Debug, Clone, Copy, PartialEq, Eq, Structural)]
pub enum SignalType {
    /// Error rate
    ErrorRate,
    /// Latency percentiles
    Latency,
    /// Request rate
    RequestRate,
    /// Token usage
    TokenUsage,
    /// Cost metrics
    Cost,
    /// Availability
    Availability,
}

/// Aggregated telemetry signals.
#[derive(Debug, Clone)]
pub struct TelemetrySignals {
    /// Query timestamp
    pub timestamp: String,
    /// Time window covered
    pub time_window_seconds: u64,
    /// Error rate percentage
    pub error_rate: Option<Float64>,
    /// Latency percentiles
    pub latency_percentiles: LatencyPercentiles,
    /// Request rate per second
    pub request_rate: Option<Float64>,
    /// Token usage
    pub token_usage: Option<TokenUsage>,
    /// Cost in the period
    pub cost: Option<Float64>,
    /// Availability percentage
    pub availability: Option<Float64>,
}

/// Latency percentile values.
#[derive(Debug, Clone)]
pub struct LatencyPercentiles {
    /// 50th percentile (median)
    pub p50: Option<Float64>,
    /// 90th percentile
    pub p90: Option<Float64>,
    /// 95th percentile
    pub p95: Option<Float64>,
    /// 99th percentile
    pub p99: Option<Float64>,
}

impl LatencyPercentiles {
    /// Whether every field has its default value: no percentile is known.
    pub open spec fn is_default(&self) -> bool {
        &&& self.p50 is None
        &&& self.p90 is None
        &&& self.p95 is None
        &&& self.p99 is None
    }
}

impl Default for LatencyPercentiles {
    fn default() -> (r: Self)
        ensures
            r.is_default(),
    {
        LatencyPercentiles { p50: None, p90: None, p95: None, p99: None }
    }
}

/// Token usage metrics.
#[derive(Debug, Clone)]
pub struct TokenUsage {
    /// Input tokens
    pub input_tokens: u64,
    /// Output tokens
    pub output_tokens: u64,
    /// Total tokens
    pub total_tokens: u64,
}

/// Current metrics snapshot.
#[derive(Debug, Clone)]
pub struct CurrentMetrics {
    /// Metric timestamp
    pub timestamp: String,
    /// Service name
    pub service: String,
    /// Model name
    pub model: Option<String>,
    /// Active requests
    pub active_requests: u64,
    /// Error count (last minute)
    pub error_count: u64,
    /// Average latency (last minute)
    pub avg_latency_ms: Float64,
    /// Health status
    pub health_status: HealthStatus,
}

/// Health status enumeration.
#[derive(Debug, Clone, Copy, PartialEq, Eq, Structural)]
pub enum HealthStatus {
    /// Healthy
    Healthy,
    /// Degraded performance
    Degraded,
    /// Unhealthy
    Unhealthy,
    /// Unknown
    Unknown,
}

impl Default for HealthStatus {
    fn default() -> (r: Self)
        ensures
            r == HealthStatus::Unknown,
    {
        HealthStatus::Unknown
    }
}

/// Telemetry subscription request.
#[derive(Debug, Clone)]
pub struct TelemetrySubscription {
    /// Subscription name
    pub name: String,
    /// Services to subscribe to
    pub services: Vec<String>,
    /// Signal types to subscribe to
    pub signal_types: Vec<SignalType>,
    /// Callback URL for notifications
    pub callback_url: Option<String>,
    /// Threshold for notifications
    pub threshold: Option<TelemetryThreshold>,
}

/// Threshold for telemetry notifications.
#[derive(Debug, Clone)]
pub struct TelemetryThreshold {
    /// Signal type
    pub signal_type: SignalType,
    /// Operator (gt, lt, eq, gte, lte)
    pub operator: String,
    /// Threshold value
    pub value: Float64,
}

/// Subscription acknowledgment.
#[derive(Debug, Clone)]
pub struct SubscriptionAck {
    /// Subscription ID
    pub subscription_id: String,
    /// Whether subscription is active
    pub active: bool,
}

/// Policy decision record for analytics.
#[derive(Debug, Clone)]
pub struct PolicyDecisionRecord {
    /// Decision ID
    pub decision_id: String,
    /// Timestamp
    pub timestamp: String,
    /// User ID (if applicable)
    pub user_id: Option<String>,
    /// Model used
    pub model: Option<String>,
    /// Provider
    pub provider: Option<String>,
    /// Policy ID
    pub policy_id: String,
    /// Decision outcome
    pub decision: DecisionOutcome,
    /// Evaluation latency
    pub latency_ms: Float64,
    /// Reason for decision
    pub reason: Option<String>,
    /// Additional metadata
    pub metadata: HashMap<String, serde_json::Value>,
}

/// Record acknowledgment.
#[derive(Debug, Clone)]
pub struct RecordAck {
    /// Whether record was accepted
    pub accepted: bool,
    /// Record ID
    pub record_id: Option<String>,
}

} // verus!
