//! LLM Schema Registry integration adapter.
//!
//! A thin runtime adapter for consuming schema definitions from the Schema
//! Registry and for having policy documents and rule structures validated
//! against them. The dependency runs one way: the policy engine consumes from
//! the Schema Registry and exports nothing to it.

use super::client::{Endpoint, IntegrationClient, Request};
use crate::text::{decimal, push_decimal};
use std::time::Duration;
use vstd::prelude::*;
use vstd::string::StringExecFns;

verus! {

/// Client for consuming schema definitions from LLM Schema Registry.
#[derive(Debug)]
pub struct SchemaRegistryAdapter {
    client: IntegrationClient,
}

impl View for SchemaRegistryAdapter {
    type V = Endpoint;

    closed spec fn view(&self) -> Endpoint {
        self.client@
    }
}

/// The path of the latest schema of a subject.
pub open spec fn latest_schema_path(subject: Seq<char>) -> Seq<char> {
    "/api/v1/schemas/"@ + subject + "/latest"@
}

/// The path of one version of the schema of a subject, the version written
/// in base ten.
pub open spec fn schema_version_path(subject: Seq<char>, version: u32) -> Seq<char> {
    "/api/v1/schemas/"@ + subject + "/versions/"@ + decimal(version as nat)
}

impl SchemaRegistryAdapter {
    /// Create a new Schema Registry adapter. Nothing is sent.
    pub fn new(base_url: String, timeout: Duration) -> (adapter: Self)
        ensures
            adapter@ == (Endpoint { base_url: base_url@, timeout }),
    {
        SchemaRegistryAdapter { client: IntegrationClient::new(base_url, timeout) }
    }

    /// Fetch the latest schema definition of a subject. The answer is a
    /// [`SchemaDefinition`].
    ///
    /// The subject goes into the path as it is.
    pub fn get_schema(&self, subject: &str) -> (req: Request<()>)
        ensures
            req@ == self@.get(latest_schema_path(subject@)),
    {
        let mut path = String::from_str("/api/v1/schemas/");
        path.append(subject);
        path.append("/latest");
        self.client.get(path.as_str())
    }

    /// Fetch a specific version of a schema. The answer is a
    /// [`SchemaDefinition`].
    pub fn get_schema_version(&self, subject: &str, version: u32) -> (req: Request<()>)
        ensures
            req@ == self@.get(schema_version_path(subject@, version)),
    {
        let mut path = String::from_str("/api/v1/schemas/");
        path.append(subject);
        path.append("/versions/");
        push_decimal(&mut path, version);
        self.client.get(path.as_str())
    }

    /// Validate a policy document against the policy schema. The answer is a
    /// [`ValidationResult`].
    pub fn validate_policy_document<'a>(&self, document: &'a PolicyDocumentSchema) -> (req:
        Request<&'a PolicyDocumentSchema>)
        ensures
            req@ == self@.post("/api/v1/validate/policy-document"@, document),
    {
        self.client.post("/api/v1/validate/policy-document", document)
    }

    /// Validate a policy rule structure against the rule schema. The answer
    /// is a [`ValidationResult`].
    pub fn validate_rule_structure<'a>(&self, rule: &'a RuleSchema) -> (req: Request<
        &'a RuleSchema,
    >)
        ensures
            req@ == self@.post("/api/v1/validate/policy-rule"@, rule),
    {
        self.client.post("/api/v1/validate/policy-rule", rule)
    }

    /// Check whether a new policy version is compatible with the existing
    /// schema constraints. The answer is a [`CompatibilityResult`].
    pub fn check_compatibility<'a>(&self, request: &'a CompatibilityCheckRequest) -> (req:
        Request<&'a CompatibilityCheckRequest>)
        ensures
            req@ == self@.post("/api/v1/compatibility/check"@, request),
    {
        self.client.post("/api/v1/compatibility/check", request)
    }

    /// List available policy-related schemas. The answer is a list of
    /// [`SchemaMetadata`].
    pub fn list_policy_schemas(&self) -> (req: Request<()>)
        ensures
            req@ == self@.get("/api/v1/schemas?filter=policy"@),
    {
        self.client.get("/api/v1/schemas?filter=policy")
    }

    /// The probe that asks whether the Schema Registry is alive.
    pub fn health_check(&self) -> (req: Request<()>)
        ensures
            req@ == self@.probe(),
    {
        self.client.health_check()
    }
}

/// A schema definition from the Schema Registry.
#[derive(Debug, Clone)]
pub struct SchemaDefinition {
    /// Schema ID
    pub id: String,
    /// Schema subject (name)
    pub subject: String,
    /// Schema version
    pub version: u32,
    /// Schema type (e.g., "json-schema", "avro", "protobuf")
    pub schema_type: SchemaType,
    /// The schema content
    pub schema: serde_json::Value,
    /// Schema metadata; default-filled when absent
    pub metadata: SchemaMetadata,
}

/// Schema type enumeration.
#[derive(Debug, Clone, Copy, PartialEq, Eq, Structural)]
pub enum SchemaType {
    /// JSON Schema
    JsonSchema,
    /// Apache Avro
    Avro,
    /// Protocol Buffers
    Protobuf,
    /// OpenAPI/Swagger
    OpenApi,
}

impl Default for SchemaType {
    fn default() -> (r: Self)
        ensures
            r == SchemaType::JsonSchema,
    {
        SchemaType::JsonSchema
    }
}

/// Schema metadata.
#[derive(Debug, Clone)]
pub struct SchemaMetadata {
    /// Schema subject name
    pub subject: String,
    /// Schema description
    pub description: Option<String>,
    /// Schema owner/maintainer
    pub owner: Option<String>,
    /// Schema tags
    pub tags: Vec<String>,
    /// Creation timestamp
    pub created_at: Option<String>,
    /// Last updated timestamp
    pub updated_at: Option<String>,
}

impl SchemaMetadata {
    /// Whether every field has its default value: an empty subject, no tags
    /// and nothing else known.
    pub open spec fn is_default(&self) -> bool {
        &&& self.subject@.len() == 0
        &&& self.description is None
        &&& self.owner is None
        &&& self.tags@.len() == 0
        &&& self.created_at is None
        &&& self.updated_at is None
    }
}

impl Default for SchemaMetadata {
    fn default() -> (r: Self)
        ensures
            r.is_default(),
    {
        SchemaMetadata {
            subject: String::new(),
            description: None,
            owner: None,
            tags: Vec::new(),
            created_at: None,
            updated_at: None,
        }
    }
}

/// Policy document structure for schema validation.
#[derive(Debug, Clone)]
pub struct PolicyDocumentSchema {
    /// API version
    pub api_version: String,
    /// Document kind
    pub kind: String,
    /// Policy definitions (as raw JSON for schema validation)
    pub policies: Vec<serde_json::Value>,
}

/// Rule structure for schema validation.
#[derive(Debug, Clone)]
pub struct RuleSchema {
    /// Rule ID
    pub id: String,
    /// Rule name
    pub name: String,
    /// Condition expression
    pub condition: serde_json::Value,
    /// Action definition
    pub action: serde_json::Value,
}

/// Result of a schema validation operation.
#[derive(Debug, Clone)]
pub struct ValidationResult {
    /// Whether the validation passed
    pub valid: bool,
    /// Validation errors if any
    pub errors: Vec<ValidationError>,
    /// Validation warnings if any
    pub warnings: Vec<ValidationWarning>,
}

impl ValidationResult {
    /// Whether every field has its default value: valid, with no errors and
    /// no warnings.
    pub open spec fn is_default(&self) -> bool {
        &&& self.valid
        &&& self.errors@.len() == 0
        &&& self.warnings@.len() == 0
    }
}

impl Default for ValidationResult {
    fn default() -> (r: Self)
        ensures
            r.is_default(),
    {
        ValidationResult { valid: true, errors: Vec::new(), warnings: Vec::new() }
    }
}

/// A validation error.
#[derive(Debug, Clone)]
pub struct ValidationError {
    /// Error path in the document
    pub path: String,
    /// Error message
    pub message: String,
    /// Error code
    pub code: Option<String>,
}

/// A validation warning.
#[derive(Debug, Clone)]
pub struct ValidationWarning {
    /// Warning path in the document
    pub path: String,
    /// Warning message
    pub message: String,
}

/// Request for checking schema compatibility.
#[derive(Debug, Clone)]
pub struct CompatibilityCheckRequest {
    /// Subject to check against
    pub subject: String,
    /// The new schema to check
    pub schema: serde_json::Value,
    /// Compatibility level to check
    pub compatibility_level: CompatibilityLevel,
}

/// Schema compatibility levels.
#[derive(Debug, Clone, Copy, PartialEq, Eq, Structural)]
pub enum CompatibilityLevel {
    /// No compatibility checks
    NoChecks,
    /// New schema can read data written by old schema
    Backward,
    /// Old schema can read data written by new schema
    Forward,
    /// Both backward and forward compatible
    Full,
    /// Backward compatible with all previous versions
    BackwardTransitive,
    /// Forward compatible with all previous versions
    ForwardTransitive,
    /// Full compatible with all previous versions
    FullTransitive,
}

impl Default for CompatibilityLevel {
    fn default() -> (r: Self)
        ensures
            r == CompatibilityLevel::Backward,
    {
        CompatibilityLevel::Backward
    }
}

/// Result of a compatibility check.
#[derive(Debug, Clone)]
pub struct CompatibilityResult {
    /// Whether the schemas are compatible
    pub compatible: bool,
    /// Compatibility issues if any
    pub issues: Vec<CompatibilityIssue>,
}

impl CompatibilityResult {
    /// Whether every field has its default value: compatible, with no issues.
    pub open spec fn is_default(&self) -> bool {
        &&& self.compatible
        &&& self.issues@.len() == 0
    }
}

impl Default for CompatibilityResult {
    fn default() -> (r: Self)
        ensures
            r.is_default(),
    {
        CompatibilityResult { compatible: true, issues: Vec::new() }
    }
}

/// A compatibility issue.
#[derive(Debug, Clone)]
pub struct CompatibilityIssue {
    /// Issue type
    pub issue_type: String,
    /// Issue description
    pub description: String,
    /// Affected path
    pub path: Option<String>,
}

} // verus!
