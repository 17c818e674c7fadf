//! A client for the HTTP API of a service-discovery and key-value daemon: it
//! builds the requests that the agent and key-value endpoints take and decodes
//! what the daemon replies. Sending a request is left to the caller.
//!
//! An operation goes in three steps. The facade builds the request:
//! `consul.kv().get("app/db")` is a `GET` to `http://<address>/v1/kv/app/db`.
//! The caller sends it over whatever HTTP client it has and puts status and
//! body into a `Response`. The decoder that the operation names reads the
//! reply: `KeyValue::get_reply(&reply)` is the value, `None` where the key is
//! not there, or the error that the daemon answered with.
//!
//! Each builder and each decoder is specified by a function over mathematical
//! values (`request_for`, `json_reply` and the like), so that what is sent and
//! what a reply means can be read off the contracts.

pub mod agent;
pub mod error;
pub mod json;
pub mod keyvalue;
pub mod registration;
pub mod response;
pub mod table;
pub mod text;
pub mod uri;

pub use agent::{Agent, AgentCheck, AgentCheckRegistration, AgentService, AgentServiceRegistration};
pub use error::{consul_error, DecodeFailure, Error, Result};
pub use keyvalue::{KVEntry, KeyValue};
pub use response::Response;
pub use serde_json::Value as JValue;
pub use uri::{Query, QueryView, UriError};

use error::{gives, refuses};
use uri::{build_url, request_url};
use vstd::prelude::*;
use vstd::string::*;
use vstd::utf8::encode_utf8;

verus! {

broadcast use vstd::string::group_string_axioms;

/// The HTTP verbs that the agent and key-value endpoints use.
#[derive(Clone, Copy, Debug, PartialEq, Eq, Structural)]
pub enum Method {
    Get,
    Put,
    Delete,
}

/// A request, ready to be sent: the verb, the URL, and the body if there is one.
#[derive(Debug)]
pub struct Request {
    pub method: Method,
    pub url: String,
    /// Whether the body is announced as JSON in the `Content-Type` header.
    pub json: bool,
    pub body: Option<Vec<u8>>,
}

/// The mathematical content of a `Request`.
pub struct RequestView {
    pub method: Method,
    pub url: Seq<char>,
    pub json: bool,
    pub body: Option<Seq<u8>>,
}

impl View for Request {
    type V = RequestView;

    open spec fn view(&self) -> RequestView {
        RequestView {
            method: self.method,
            url: self.url@,
            json: self.json,
            body: match self.body {
                Some(bytes) => Some(bytes@),
                None => None,
            },
        }
    }
}

impl Request {
    /// The same request with `bytes` as its body.
    pub fn body(self, bytes: Vec<u8>) -> (r: Request)
        ensures
            r@ == (RequestView { body: Some(bytes@), ..self@ }),
    {
        Request { method: self.method, url: self.url, json: self.json, body: Some(bytes) }
    }

    /// The same request with `text` as its body, announced as JSON.
    pub fn json_body(self, text: &str) -> (r: Request)
        ensures
            r@ == (RequestView { body: Some(encode_utf8(text@)), json: true, ..self@ }),
    {
        Request { method: self.method, url: self.url, json: true, body: Some(text.as_bytes_vec()) }
    }
}

/// The text from which a request URL is parsed: the scheme, the address of the
/// daemon, the version prefix of the API and the resource group.
pub open spec fn base_url(address: Seq<char>, group: Seq<char>) -> Seq<char> {
    "http://"@ + address + "/v1/"@ + group
}

/// The request that addresses a resource: a group of the API, path segments
/// below it, and a query. It has no body.
pub open spec fn request_for(
    address: Seq<char>,
    method: Method,
    group: Seq<char>,
    segments: Seq<Seq<char>>,
    query: QueryView,
) -> std::result::Result<RequestView, error::ErrorView> {
    match request_url(base_url(address, group), segments, query) {
        Ok(url) => Ok(RequestView { method, url, json: false, body: None }),
        Err(e) => Err(error::ErrorView::Uri(e)),
    }
}

/// Whether `out` is what `wanted` asks for: the same request, or the same error.
pub open spec fn yields(
    out: std::result::Result<Request, Error>,
    wanted: std::result::Result<RequestView, error::ErrorView>,
) -> bool {
    match out {
        Ok(request) => gives(wanted, request@),
        Err(e) => refuses(wanted, e@),
    }
}

/// An operation that is asked for again builds the same request again: nothing
/// is kept between calls, so two results that meet the same specification are
/// the same request, or the same error.
pub proof fn lemma_repeated_request(
    first: std::result::Result<Request, Error>,
    again: std::result::Result<Request, Error>,
    wanted: std::result::Result<RequestView, error::ErrorView>,
)
    requires
        yields(first, wanted),
        yields(again, wanted),
    ensures
        match (first, again) {
            (Ok(a), Ok(b)) => a@ == b@,
            (Err(a), Err(b)) => a@ == b@,
            _ => false,
        },
{
}

/// The entry point of the client: it knows where the daemon listens.
#[derive(Debug)]
pub struct Consul {
    address: String,
}

impl View for Consul {
    type V = Seq<char>;

    /// The address of the daemon, `host:port`.
    closed spec fn view(&self) -> Seq<char> {
        self.address@
    }
}

impl Consul {
    /// A client for the daemon at `address`, given as `host:port`.
    pub fn new(address: &str) -> (consul: Consul)
        ensures
            consul@ == address@,
    {
        Consul { address: String::from_str(address) }
    }

    /// A client for the daemon at its usual local address, `127.0.0.1:8500`.
    pub fn default() -> (consul: Consul)
        ensures
            consul@ == "127.0.0.1:8500"@,
    {
        Consul::new("127.0.0.1:8500")
    }

    /// The operations on the local agent.
    pub fn agent(&self) -> (agent: Agent<'_>)
        ensures
            agent@ == self@,
    {
        Agent::new(self)
    }

    /// The operations on the key-value store.
    pub fn kv(&self) -> (kv: KeyValue<'_>)
        ensures
            kv@ == self@,
    {
        KeyValue::new(self)
    }

    /// The request for a resource group as a whole.
    pub fn _request1(&self, method: Method, srv: &str) -> (out: std::result::Result<Request, Error>)
        ensures
            yields(out, request_for(self@, method, srv@, Seq::empty(), QueryView::Absent)),
    {
        let segments: Vec<String> = Vec::new();
        proof {
            assert(segments.deep_view() =~= Seq::<Seq<char>>::empty());
        }
        self._request3(method, srv, &segments, &Query::Absent)
    }

    /// The request for a resource that path segments name below a group.
    pub fn _request2(
        &self,
        method: Method,
        srv: &str,
        segments: &Vec<String>,
    ) -> (out: std::result::Result<Request, Error>)
        ensures
            yields(out, request_for(self@, method, srv@, segments.deep_view(), QueryView::Absent)),
    {
        self._request3(method, srv, segments, &Query::Absent)
    }

    /// The request for a resource that path segments name below a group, with a query.
    pub fn _request3(
        &self,
        method: Method,
        srv: &str,
        segments: &Vec<String>,
        query: &Query,
    ) -> (out: std::result::Result<Request, Error>)
        ensures
            yields(out, request_for(self@, method, srv@, segments.deep_view(), query@)),
    {
        let base = String::from_str("http://").concat(self.address.as_str()).concat("/v1/").concat(
            srv,
        );
        match build_url(base.as_str(), segments, query) {
            Ok(url) => Ok(Request { method, url, json: false, body: None }),
            Err(e) => Err(Error::Uri(e)),
        }
    }
}

} // verus!
