//! Client for the LLM Edge Agent: policy distribution to edge locations.

use super::client::{Endpoint, IntegrationClient, Request};
use std::time::Duration;
use vstd::prelude::*;

verus! {

/// Client for the LLM Edge Agent.
///
/// The payloads of this service are its own affair: the client fixes where a
/// request goes and how long it may take, and leaves the body to the caller.
#[derive(Debug)]
pub struct EdgeAgentClient {
    client: IntegrationClient,
}

impl View for EdgeAgentClient {
    type V = Endpoint;

    closed spec fn view(&self) -> Endpoint {
        self.client@
    }
}

impl EdgeAgentClient {
    /// Create a new Edge Agent client. Nothing is sent.
    pub fn new(base_url: String, timeout: Duration) -> (client: Self)
        ensures
            client@ == (Endpoint { base_url: base_url@, timeout }),
    {
        EdgeAgentClient { client: IntegrationClient::new(base_url, timeout) }
    }

    /// The request that reads `path` from Edge Agent.
    pub fn get(&self, path: &str) -> (req: Request<()>)
        ensures
            req@ == self@.get(path@),
    {
        self.client.get(path)
    }

    /// The request that writes `body` to `path` at Edge Agent.
    pub fn post<B>(&self, path: &str, body: B) -> (req: Request<B>)
        ensures
            req@ == self@.post(path@, body),
    {
        self.client.post(path, body)
    }

    /// The probe that asks whether Edge Agent is alive.
    pub fn health_check(&self) -> (req: Request<()>)
        ensures
            req@ == self@.probe(),
    {
        self.client.health_check()
    }
}

} // verus!
