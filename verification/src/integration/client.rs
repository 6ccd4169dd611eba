//! The transport core: one request, one outcome, one classified result.
//!
//! A client is a base URL and a time budget. It describes each exchange as a
//! [`Request`]; whoever performs the exchange reports what happened as an
//! [`Outcome`]; and the outcome is classified here, the same way for every
//! adapter.

use crate::json::{json_of, parse_json};
use std::time::Duration;
use vstd::prelude::*;
use vstd::string::StringExecFns;

verus! {

/// The two kinds of request that the fabric makes.
#[derive(Clone, Copy, Debug, PartialEq, Eq, Structural)]
pub enum Method {
    /// A read.
    Get,
    /// A write, which carries a body.
    Post,
}

/// One exchange to perform: where to send what, and how long to wait.
#[derive(Debug)]
pub struct Request<B> {
    /// Read or write.
    pub method: Method,
    /// The base URL followed by the operation's path.
    pub url: String,
    /// The budget of this call. When it runs out the call is abandoned.
    pub timeout: Duration,
    /// The payload to serialize; a read has none.
    pub body: Option<B>,
}

/// A request, with its URL as a sequence of characters.
pub struct RequestView<B> {
    pub method: Method,
    pub url: Seq<char>,
    pub timeout: Duration,
    pub body: Option<B>,
}

impl<B> View for Request<B> {
    type V = RequestView<B>;

    open spec fn view(&self) -> RequestView<B> {
        RequestView { method: self.method, url: self.url@, timeout: self.timeout, body: self.body }
    }
}

/// What became of an exchange.
#[derive(Debug)]
pub enum Outcome {
    /// The service answered.
    Response { status: u16, body: Vec<u8> },
    /// The connection could not be established, or was dropped.
    Failed { reason: String },
    /// No answer came within the budget.
    TimedOut,
}

/// An outcome, with its contents as sequences.
pub enum Reply {
    Response { status: u16, body: Seq<u8> },
    Failed { reason: Seq<char> },
    TimedOut,
}

impl View for Outcome {
    type V = Reply;

    open spec fn view(&self) -> Reply {
        match *self {
            Outcome::Response { status, body } => Reply::Response { status, body: body@ },
            Outcome::Failed { reason } => Reply::Failed { reason: reason@ },
            Outcome::TimedOut => Reply::TimedOut,
        }
    }
}

/// The one failure type of the fabric.
#[derive(Debug)]
pub enum IntegrationError {
    /// The connection could not be established or was dropped.
    TransportError { reason: String },
    /// No response came within the configured budget.
    Timeout,
    /// The service answered with a status outside 200..=299. The status and
    /// the body are kept as they came.
    RemoteError { status: u16, body: Vec<u8> },
    /// The service answered with success, but the body could not be read as
    /// what was expected.
    DecodeError { reason: String },
}

/// A failure, with its texts as sequences.
pub enum Fault {
    Transport { reason: Seq<char> },
    Timeout,
    Remote { status: u16, body: Seq<u8> },
    Decode { reason: Seq<char> },
}

impl View for IntegrationError {
    type V = Fault;

    open spec fn view(&self) -> Fault {
        match *self {
            IntegrationError::TransportError { reason } => Fault::Transport { reason: reason@ },
            IntegrationError::Timeout => Fault::Timeout,
            IntegrationError::RemoteError { status, body } => Fault::Remote { status, body: body@ },
            IntegrationError::DecodeError { reason } => Fault::Decode { reason: reason@ },
        }
    }
}

/// What every operation of every adapter comes to.
pub type IntegrationResult<T> = Result<T, IntegrationError>;

/// Whether a status code reports success.
pub open spec fn is_success(status: u16) -> bool {
    200 <= status <= 299
}

impl Fault {
    /// The body of an error response as a JSON value, where it is one.
    pub open spec fn structured_body(self) -> Option<serde_json::Value> {
        match self {
            Fault::Remote { body, .. } => match json_of(body) {
                Ok(value) => Some(value),
                Err(_) => None,
            },
            _ => None,
        }
    }
}

impl Reply {
    /// The bytes of a successful answer, or the failure that the outcome
    /// amounts to before anything is decoded.
    pub open spec fn body(self) -> Result<Seq<u8>, Fault> {
        match self {
            Reply::Response { status, body } => if is_success(status) {
                Ok(body)
            } else {
                Err(Fault::Remote { status, body })
            },
            Reply::Failed { reason } => Err(Fault::Transport { reason }),
            Reply::TimedOut => Err(Fault::Timeout),
        }
    }

    /// The JSON value of a successful answer, or the failure that the outcome
    /// amounts to.
    pub open spec fn json(self) -> Result<serde_json::Value, Fault> {
        match self.body() {
            Ok(bytes) => match json_of(bytes) {
                Ok(v) => Ok(v),
                Err(reason) => Err(Fault::Decode { reason }),
            },
            Err(fault) => Err(fault),
        }
    }

    /// Whether the outcome of a liveness probe shows a live service.
    pub open spec fn healthy(self) -> bool {
        self matches Reply::Response { status, .. } && is_success(status)
    }
}

/// The result that a decoder's answer comes to.
pub open spec fn settled<T>(parsed: Result<T, String>) -> Result<T, Fault> {
    match parsed {
        Ok(value) => Ok(value),
        Err(reason) => Err(Fault::Decode { reason: reason@ }),
    }
}

/// The result of an exchange, with a failure taken by its view.
pub open spec fn result_view<T>(r: IntegrationResult<T>) -> Result<T, Fault> {
    match r {
        Ok(value) => Ok(value),
        Err(e) => Err(e@),
    }
}

/// Whether a status code reports success.
pub fn status_is_success(status: u16) -> (ok: bool)
    ensures
        ok == is_success(status),
{
    200 <= status && status <= 299
}

/// Turns the answer of a typed decoder into a result: what it read, or a
/// `DecodeError` with its complaint.
pub fn decoded<T>(parsed: Result<T, String>) -> (r: IntegrationResult<T>)
    ensures
        result_view(r) == settled(parsed),
{
    match parsed {
        Ok(value) => Ok(value),
        Err(reason) => Err(IntegrationError::DecodeError { reason }),
    }
}

impl IntegrationError {
    /// The structured body of a `RemoteError`: the JSON value that the
    /// service sent with its status, where it sent one. Every other failure,
    /// and a `RemoteError` whose body is not JSON, has none.
    pub fn structured_body(&self) -> (structured: Option<serde_json::Value>)
        ensures
            structured == self@.structured_body(),
    {
        match self {
            IntegrationError::RemoteError { body, .. } => match parse_json(body.as_slice()) {
                Ok(value) => Some(value),
                Err(_) => None,
            },
            _ => None,
        }
    }
}

impl Outcome {
    /// Classifies the outcome without decoding anything: the bytes of a 2xx
    /// answer, `RemoteError` for any other status, `TransportError` for a
    /// failed connection, `Timeout` for an exhausted budget.
    pub fn into_body(self) -> (r: IntegrationResult<Vec<u8>>)
        ensures
            match r {
                Ok(bytes) => self@.body() == Ok::<Seq<u8>, Fault>(bytes@),
                Err(e) => self@.body() == Err::<Seq<u8>, Fault>(e@),
            },
    {
        match self {
            Outcome::Response { status, body } => {
                if status_is_success(status) {
                    Ok(body)
                } else {
                    Err(IntegrationError::RemoteError { status, body })
                }
            },
            Outcome::Failed { reason } => Err(IntegrationError::TransportError { reason }),
            Outcome::TimedOut => Err(IntegrationError::Timeout),
        }
    }

    /// Classifies the outcome and reads a successful body as JSON. A body
    /// that is not JSON is a `DecodeError`.
    pub fn into_json(self) -> (r: IntegrationResult<serde_json::Value>)
        ensures
            result_view(r) == self@.json(),
    {
        match self.into_body() {
            Ok(bytes) => match parse_json(bytes.as_slice()) {
                Ok(v) => Ok(v),
                Err(reason) => Err(IntegrationError::DecodeError { reason }),
            },
            Err(e) => Err(e),
        }
    }

    /// Classifies the outcome and hands the JSON value of a successful answer
    /// to a typed decoder, which must take any JSON value. The decoder is
    /// consulted on success only, and its complaint becomes a `DecodeError`.
    pub fn decode_with<T, F: FnOnce(serde_json::Value) -> Result<T, String>>(
        self,
        decode: F,
    ) -> (r: IntegrationResult<T>)
        requires
            forall|v: serde_json::Value| decode.requires((v,)),
        ensures
            match self@.json() {
                Ok(v) => exists|parsed: Result<T, String>|
                    decode.ensures((v,), parsed) && result_view(r) == settled(parsed),
                Err(fault) => result_view(r) == Err::<T, Fault>(fault),
            },
    {
        match self.into_json() {
            Ok(v) => {
                let parsed = decode(v);
                decoded(parsed)
            },
            Err(e) => Err(e),
        }
    }

    /// The verdict of a liveness probe: `true` for a 2xx answer, `false` for
    /// everything else. A probe never fails; it only says no.
    pub fn is_healthy(&self) -> (ok: bool)
        ensures
            ok == self@.healthy(),
    {
        match self {
            Outcome::Response { status, .. } => status_is_success(*status),
            _ => false,
        }
    }
}

/// A base URL and a time budget, as sequences.
pub struct Endpoint {
    pub base_url: Seq<char>,
    pub timeout: Duration,
}

impl Endpoint {
    /// The URL of an operation: the base URL followed by the path.
    pub open spec fn url(self, path: Seq<char>) -> Seq<char> {
        self.base_url + path
    }

    /// The read of a path.
    pub open spec fn get(self, path: Seq<char>) -> RequestView<()> {
        RequestView { method: Method::Get, url: self.url(path), timeout: self.timeout, body: None }
    }

    /// The write of a payload to a path.
    pub open spec fn post<B>(self, path: Seq<char>, body: B) -> RequestView<B> {
        RequestView {
            method: Method::Post,
            url: self.url(path),
            timeout: self.timeout,
            body: Some(body),
        }
    }

    /// The liveness probe: a read of `/health`.
    pub open spec fn probe(self) -> RequestView<()> {
        self.get("/health"@)
    }
}

/// The endpoint descriptor of one service: its base URL and the budget of
/// each call. Nothing changes after construction.
#[derive(Debug)]
pub struct IntegrationClient {
    base_url: String,
    timeout: Duration,
}

impl View for IntegrationClient {
    type V = Endpoint;

    closed spec fn view(&self) -> Endpoint {
        Endpoint { base_url: self.base_url@, timeout: self.timeout }
    }
}

impl IntegrationClient {
    /// A client for the service at `base_url`. Nothing is sent and nothing
    /// can fail: the URL is taken as it is.
    pub fn new(base_url: String, timeout: Duration) -> (client: Self)
        ensures
            client@ == (Endpoint { base_url: base_url@, timeout }),
    {
        IntegrationClient { base_url, timeout }
    }

    /// The base URL.
    pub fn base_url(&self) -> (url: &str)
        ensures
            url@ == self@.base_url,
    {
        self.base_url.as_str()
    }

    /// The budget of each call.
    pub fn timeout(&self) -> (timeout: Duration)
        ensures
            timeout == self@.timeout,
    {
        self.timeout
    }

    /// The request that reads `path`.
    pub fn get(&self, path: &str) -> (req: Request<()>)
        ensures
            req@ == self@.get(path@),
    {
        let mut url = self.base_url.clone();
        url.append(path);
        Request { method: Method::Get, url, timeout: self.timeout, body: None }
    }

    /// The request that writes `body` to `path`.
    pub fn post<B>(&self, path: &str, body: B) -> (req: Request<B>)
        ensures
            req@ == self@.post(path@, body),
    {
        let mut url = self.base_url.clone();
        url.append(path);
        Request { method: Method::Post, url, timeout: self.timeout, body: Some(body) }
    }

    /// The liveness probe. Its outcome is judged by [`Outcome::is_healthy`].
    pub fn health_check(&self) -> (req: Request<()>)
        ensures
            req@ == self@.probe(),
    {
        self.get("/health")
    }
}

/// Every request of a client carries the budget that the client was made
/// with, and a call that runs out of it is a `Timeout`: not a transport
/// error, not a value, and not a live service.
pub proof fn lemma_exhausted_budget_is_timeout<B>(endpoint: Endpoint, path: Seq<char>, body: B)
    ensures
        endpoint.get(path).timeout == endpoint.timeout,
        endpoint.post(path, body).timeout == endpoint.timeout,
        endpoint.probe().timeout == endpoint.timeout,
        Reply::TimedOut.body() == Err::<Seq<u8>, Fault>(Fault::Timeout),
        Reply::TimedOut.json() == Err::<serde_json::Value, Fault>(Fault::Timeout),
        !Reply::TimedOut.healthy(),
{
}

/// How an answer is classified. A status outside 200..=299, so any 4xx or
/// 5xx, is a `RemoteError` that carries the status and the body as they came. A 2xx answer
/// whose body is not JSON is a `DecodeError` with the parser's complaint; one
/// whose body is JSON is that value. A failed connection is a
/// `TransportError` with its reason.
pub proof fn lemma_answers_are_classified(status: u16, body: Seq<u8>, reason: Seq<char>)
    ensures
        400 <= status <= 599 ==> !is_success(status),
        !is_success(status) ==> (Reply::Response { status, body }).json() == Err::<
            serde_json::Value,
            Fault,
        >(Fault::Remote { status, body }),
        is_success(status) ==> (Reply::Response { status, body }).json() == match json_of(body) {
            Ok(value) => Ok::<serde_json::Value, Fault>(value),
            Err(complaint) => Err(Fault::Decode { reason: complaint }),
        },
        (Reply::Failed { reason }).json() == Err::<serde_json::Value, Fault>(
            Fault::Transport { reason },
        ),
{
}

/// What a decoder's refusal comes to: after a successful answer, a typed
/// decoder that complains makes a `DecodeError` with its complaint, and one
/// that reads a value makes that value.
pub proof fn lemma_decoder_settles<T>(value: T, complaint: String)
    ensures
        settled(Ok::<T, String>(value)) == Ok::<T, Fault>(value),
        settled(Err::<T, String>(complaint)) == Err::<T, Fault>(
            Fault::Decode { reason: complaint@ },
        ),
{
}

/// The verdict of a probe. A probe is judged by the status of its answer
/// alone: it says yes exactly when the exchange itself succeeded, so every
/// failure that an exchange can come to, a failed connection, an exhausted
/// budget or a status outside 200..=299, makes it say no. Nothing of a probe
/// is decoded, so no answer with a 2xx status makes it say no.
pub proof fn lemma_probe_verdict(reply: Reply)
    ensures
        reply.healthy() <==> reply.body() is Ok,
        reply.healthy() <==> (reply matches Reply::Response { status, .. } && is_success(status)),
        reply.body() matches Err(fault) ==> !reply.healthy() && (fault is Transport
            || fault is Timeout || fault is Remote),
        reply.json() matches Err(fault) && !(fault is Decode) ==> !reply.healthy(),
{
}

/// Reading twice is reading once. The request of a read depends on the
/// client and the path alone, and the result of an exchange on the answer
/// alone: two reads of one path are the same request, and where they meet
/// the same answer they come to the same value or the same failure.
pub proof fn lemma_reads_are_idempotent(
    endpoint: Endpoint,
    path: Seq<char>,
    first_request: Request<()>,
    second_request: Request<()>,
    first: Outcome,
    second: Outcome,
    first_result: IntegrationResult<serde_json::Value>,
    second_result: IntegrationResult<serde_json::Value>,
)
    requires
        first_request@ == endpoint.get(path),
        second_request@ == endpoint.get(path),
        first@ == second@,
        result_view(first_result) == first@.json(),
        result_view(second_result) == second@.json(),
    ensures
        first_request@ == second_request@,
        result_view(first_result) == result_view(second_result),
        first@.healthy() == second@.healthy(),
{
}

} // verus!
