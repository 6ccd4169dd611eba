//! Client for the Incident Manager: policy violation alerting.

use super::client::{Endpoint, IntegrationClient, Request};
use std::time::Duration;
use vstd::prelude::*;

verus! {

/// Client for the Incident Manager.
///
/// The payloads of this service are its own affair: the client fixes where a
/// request goes and how long it may take, and leaves the body to the caller.
#[derive(Debug)]
pub struct IncidentManagerClient {
    client: IntegrationClient,
}

impl View for IncidentManagerClient {
    type V = Endpoint;

    closed spec fn view(&self) -> Endpoint {
        self.client@
    }
}

impl IncidentManagerClient {
    /// Create a new Incident Manager client. Nothing is sent.
    pub fn new(base_url: String, timeout: Duration) -> (client: Self)
        ensures
            client@ == (Endpoint { base_url: base_url@, timeout }),
    {
        IncidentManagerClient { client: IntegrationClient::new(base_url, timeout) }
    }

    /// The request that reads `path` from Incident Manager.
    pub fn get(&self, path: &str) -> (req: Request<()>)
        ensures
            req@ == self@.get(path@),
    {
        self.client.get(path)
    }

    /// The request that writes `body` to `path` at Incident Manager.
    pub fn post<B>(&self, path: &str, body: B) -> (req: Request<B>)
        ensures
            req@ == self@.post(path@, body),
    {
        self.client.post(path, body)
    }

    /// The probe that asks whether Incident Manager is alive.
    pub fn health_check(&self) -> (req: Request<()>)
        ensures
            req@ == self@.probe(),
    {
        self.client.health_check()
    }
}

} // verus!
