//! The agent endpoints: the checks and services that the local agent knows,
//! their registration, and the agent's own lifecycle.

use crate::error::{gives, refuses, DecodeFailure, Error, ErrorView};
use crate::json::{
    get_bool, get_natural, get_text, get_texts, json_shape, json_text, print_json,
    required_bool, required_natural, required_text, required_texts, Members, Shape,
};
use crate::registration::{check_registration_json, service_registration_json};
use crate::response::{json_reply, Response};
use crate::table::{distinct_names, has_name, lemma_position, position, table_of};
use crate::uri::{Query, QueryView};
use crate::{request_for, yields, Consul, Method, Request, RequestView};
use serde_json::Value;
use vstd::prelude::*;
use vstd::string::*;
use vstd::utf8::encode_utf8;

verus! {

broadcast use vstd::string::group_string_axioms;

/// A check as the agent reports it.
#[derive(Debug, Clone)]
pub struct AgentCheck {
    pub node: String,
    pub check_id: String,
    pub name: String,
    pub status: String,
    pub notes: String,
    pub output: String,
    pub service_id: String,
    pub service_name: String,
}

/// The mathematical content of an `AgentCheck`.
pub struct AgentCheckView {
    pub node: Seq<char>,
    pub check_id: Seq<char>,
    pub name: Seq<char>,
    pub status: Seq<char>,
    pub notes: Seq<char>,
    pub output: Seq<char>,
    pub service_id: Seq<char>,
    pub service_name: Seq<char>,
}

impl View for AgentCheck {
    type V = AgentCheckView;

    open spec fn view(&self) -> AgentCheckView {
        AgentCheckView {
            node: self.node@,
            check_id: self.check_id@,
            name: self.name@,
            status: self.status@,
            notes: self.notes@,
            output: self.output@,
            service_id: self.service_id@,
            service_name: self.service_name@,
        }
    }
}

impl DeepView for AgentCheck {
    type V = AgentCheckView;

    open spec fn deep_view(&self) -> AgentCheckView {
        self.view()
    }
}

/// A service as the agent reports it.
#[derive(Debug, Clone)]
pub struct AgentService {
    pub id: String,
    pub service: String,
    pub tags: Vec<String>,
    pub port: u32,
    pub address: String,
    pub enable_tag_override: bool,
}

/// The mathematical content of an `AgentService`.
pub struct AgentServiceView {
    pub id: Seq<char>,
    pub service: Seq<char>,
    pub tags: Seq<Seq<char>>,
    pub port: u32,
    pub address: Seq<char>,
    pub enable_tag_override: bool,
}

impl View for AgentService {
    type V = AgentServiceView;

    open spec fn view(&self) -> AgentServiceView {
        AgentServiceView {
            id: self.id@,
            service: self.service@,
            tags: self.tags.deep_view(),
            port: self.port,
            address: self.address@,
            enable_tag_override: self.enable_tag_override,
        }
    }
}

impl DeepView for AgentService {
    type V = AgentServiceView;

    open spec fn deep_view(&self) -> AgentServiceView {
        self.view()
    }
}

/// What is sent to register a check. A field that is `None` is left out of the
/// payload, and the daemon applies its own default.
#[derive(Debug, Clone)]
pub struct AgentCheckRegistration {
    pub id: Option<String>,
    pub name: String,
    pub service_id: Option<String>,
    pub script: Option<String>,
    pub docker_container_id: Option<String>,
    pub shell: Option<String>,
    pub interval: Option<String>,
    pub timeout: Option<String>,
    pub ttl: Option<String>,
    pub http: Option<String>,
    pub tcp: Option<String>,
    pub status: Option<String>,
    pub notes: Option<String>,
    pub tls_skip_verify: Option<bool>,
    pub deregister_critical_service_after: Option<String>,
}

/// The mathematical content of an `AgentCheckRegistration`.
pub struct AgentCheckRegistrationView {
    pub id: Option<Seq<char>>,
    pub name: Seq<char>,
    pub service_id: Option<Seq<char>>,
    pub script: Option<Seq<char>>,
    pub docker_container_id: Option<Seq<char>>,
    pub shell: Option<Seq<char>>,
    pub interval: Option<Seq<char>>,
    pub timeout: Option<Seq<char>>,
    pub ttl: Option<Seq<char>>,
    pub http: Option<Seq<char>>,
    pub tcp: Option<Seq<char>>,
    pub status: Option<Seq<char>>,
    pub notes: Option<Seq<char>>,
    pub tls_skip_verify: Option<bool>,
    pub deregister_critical_service_after: Option<Seq<char>>,
}

impl View for AgentCheckRegistration {
    type V = AgentCheckRegistrationView;

    open spec fn view(&self) -> AgentCheckRegistrationView {
        AgentCheckRegistrationView {
            id: self.id.deep_view(),
            name: self.name@,
            service_id: self.service_id.deep_view(),
            script: self.script.deep_view(),
            docker_container_id: self.docker_container_id.deep_view(),
            shell: self.shell.deep_view(),
            interval: self.interval.deep_view(),
            timeout: self.timeout.deep_view(),
            ttl: self.ttl.deep_view(),
            http: self.http.deep_view(),
            tcp: self.tcp.deep_view(),
            status: self.status.deep_view(),
            notes: self.notes.deep_view(),
            tls_skip_verify: self.tls_skip_verify,
            deregister_critical_service_after: self.deregister_critical_service_after.deep_view(),
        }
    }
}

impl DeepView for AgentCheckRegistration {
    type V = AgentCheckRegistrationView;

    open spec fn deep_view(&self) -> AgentCheckRegistrationView {
        self.view()
    }
}

/// One where the field is set, zero where it is not.
pub open spec fn set_count<T>(field: Option<T>) -> nat {
    if field is Some {
        1
    } else {
        0
    }
}

/// How many of the fields that define what the check does are set: the script,
/// the container, the shell, the interval, the timeout, the TTL, the HTTP
/// endpoint and the TCP endpoint. A registration is meant to set at most one.
pub open spec fn definition_count(r: AgentCheckRegistrationView) -> nat {
    set_count(r.script) + set_count(r.docker_container_id) + set_count(r.shell) + set_count(
        r.interval,
    ) + set_count(r.timeout) + set_count(r.ttl) + set_count(r.http) + set_count(r.tcp)
}

impl AgentCheckRegistration {
    /// Whether at most one of the fields that define what the check does is set.
    /// Nothing here insists on it: the daemon is the judge of a definition.
    pub fn has_single_definition(&self) -> (r: bool)
        ensures
            r == (definition_count(self@) <= 1),
    {
        let mut count: u8 = 0;
        if self.script.is_some() {
            count += 1;
        }
        if self.docker_container_id.is_some() {
            count += 1;
        }
        if self.shell.is_some() {
            count += 1;
        }
        if self.interval.is_some() {
            count += 1;
        }
        if self.timeout.is_some() {
            count += 1;
        }
        if self.ttl.is_some() {
            count += 1;
        }
        if self.http.is_some() {
            count += 1;
        }
        if self.tcp.is_some() {
            count += 1;
        }
        count <= 1
    }
}

impl Default for AgentCheckRegistration {
    /// A registration with an empty name and no other field set.
    fn default() -> (r: AgentCheckRegistration)
        ensures
            r@ == (AgentCheckRegistrationView {
                id: None,
                name: Seq::empty(),
                service_id: None,
                script: None,
                docker_container_id: None,
                shell: None,
                interval: None,
                timeout: None,
                ttl: None,
                http: None,
                tcp: None,
                status: None,
                notes: None,
                tls_skip_verify: None,
                deregister_critical_service_after: None,
            }),
    {
        AgentCheckRegistration {
            id: None,
            name: String::new(),
            service_id: None,
            script: None,
            docker_container_id: None,
            shell: None,
            interval: None,
            timeout: None,
            ttl: None,
            http: None,
            tcp: None,
            status: None,
            notes: None,
            tls_skip_verify: None,
            deregister_critical_service_after: None,
        }
    }
}

/// What is sent to register a service, with at most one check that belongs to
/// it. A field that is `None` is left out of the payload.
#[derive(Debug, Clone)]
pub struct AgentServiceRegistration {
    pub id: Option<String>,
    pub name: String,
    pub tags: Option<Vec<String>>,
    pub port: Option<u32>,
    pub address: Option<String>,
    pub enable_tag_override: Option<bool>,
    pub check: Option<AgentCheckRegistration>,
}

/// The mathematical content of an `AgentServiceRegistration`.
pub struct AgentServiceRegistrationView {
    pub id: Option<Seq<char>>,
    pub name: Seq<char>,
    pub tags: Option<Seq<Seq<char>>>,
    pub port: Option<u32>,
    pub address: Option<Seq<char>>,
    pub enable_tag_override: Option<bool>,
    pub check: Option<AgentCheckRegistrationView>,
}

impl View for AgentServiceRegistration {
    type V = AgentServiceRegistrationView;

    open spec fn view(&self) -> AgentServiceRegistrationView {
        AgentServiceRegistrationView {
            id: self.id.deep_view(),
            name: self.name@,
            tags: self.tags.deep_view(),
            port: self.port,
            address: self.address.deep_view(),
            enable_tag_override: self.enable_tag_override,
            check: self.check.deep_view(),
        }
    }
}

impl DeepView for AgentServiceRegistration {
    type V = AgentServiceRegistrationView;

    open spec fn deep_view(&self) -> AgentServiceRegistrationView {
        self.view()
    }
}

impl Default for AgentServiceRegistration {
    /// A registration with an empty name and no other field set.
    fn default() -> (r: AgentServiceRegistration)
        ensures
            r@ == (AgentServiceRegistrationView {
                id: None,
                name: Seq::empty(),
                tags: None,
                port: None,
                address: None,
                enable_tag_override: None,
                check: None,
            }),
    {
        AgentServiceRegistration {
            id: None,
            name: String::new(),
            tags: None,
            port: None,
            address: None,
            enable_tag_override: None,
            check: None,
        }
    }
}

/// The check that an object describes: each of the eight fields must be there
/// and be a string. Members with other names are passed over.
pub open spec fn check_in(object: Map<Seq<char>, Value>) -> Option<AgentCheckView> {
    match (
        required_text(object, "Node"@),
        required_text(object, "CheckID"@),
        required_text(object, "Name"@),
        required_text(object, "Status"@),
        required_text(object, "Notes"@),
        required_text(object, "Output"@),
        required_text(object, "ServiceID"@),
        required_text(object, "ServiceName"@),
    ) {
        (
            Some(node),
            Some(check_id),
            Some(name),
            Some(status),
            Some(notes),
            Some(output),
            Some(service_id),
            Some(service_name),
        ) => Some(
            AgentCheckView {
                node,
                check_id,
                name,
                status,
                notes,
                output,
                service_id,
                service_name,
            },
        ),
        _ => None,
    }
}

/// The check that a JSON value describes, where it describes one.
pub open spec fn check_of(value: Value) -> Option<AgentCheckView> {
    match json_shape(value) {
        Shape::Object(object) => check_in(object),
        _ => None,
    }
}

/// The port that a number names, where it is one that fits 32 bits.
pub open spec fn port_of(number: Option<u64>) -> Option<u32> {
    match number {
        Some(n) => if n <= u32::MAX {
            Some(n as u32)
        } else {
            None
        },
        None => None,
    }
}

/// The service that an object describes. Members with other names are passed over.
pub open spec fn service_in(object: Map<Seq<char>, Value>) -> Option<AgentServiceView> {
    match (
        required_text(object, "ID"@),
        required_text(object, "Service"@),
        required_texts(object, "Tags"@),
        port_of(required_natural(object, "Port"@)),
        required_text(object, "Address"@),
        required_bool(object, "EnableTagOverride"@),
    ) {
        (
            Some(id),
            Some(service),
            Some(tags),
            Some(port),
            Some(address),
            Some(enable_tag_override),
        ) => Some(AgentServiceView { id, service, tags, port, address, enable_tag_override }),
        _ => None,
    }
}

/// The service that a JSON value describes, where it describes one.
pub open spec fn service_of(value: Value) -> Option<AgentServiceView> {
    match json_shape(value) {
        Shape::Object(object) => service_in(object),
        _ => None,
    }
}

/// Narrows a number to a port.
fn to_port(number: Option<u64>) -> (port: Option<u32>)
    ensures
        port == port_of(number),
{
    match number {
        Some(n) => if n <= 0xFFFF_FFFF {
            Some(n as u32)
        } else {
            None
        },
        None => None,
    }
}

impl AgentCheck {
    /// Reads a check from the JSON value that describes it.
    pub fn from_json(value: &Value) -> (out: Option<AgentCheck>)
        ensures
            out.deep_view() == check_of(*value),
    {
        let Some(members) = Members::of(value) else {
            return None;
        };
        let node = get_text(&members, "Node")?;
        let check_id = get_text(&members, "CheckID")?;
        let name = get_text(&members, "Name")?;
        let status = get_text(&members, "Status")?;
        let notes = get_text(&members, "Notes")?;
        let output = get_text(&members, "Output")?;
        let service_id = get_text(&members, "ServiceID")?;
        let service_name = get_text(&members, "ServiceName")?;
        Some(
            AgentCheck { node, check_id, name, status, notes, output, service_id, service_name },
        )
    }
}

impl AgentService {
    /// Reads a service from the JSON value that describes it.
    pub fn from_json(value: &Value) -> (out: Option<AgentService>)
        ensures
            out.deep_view() == service_of(*value),
    {
        let Some(members) = Members::of(value) else {
            return None;
        };
        let id = get_text(&members, "ID")?;
        let service = get_text(&members, "Service")?;
        let tags = get_texts(&members, "Tags")?;
        let port = to_port(get_natural(&members, "Port"))?;
        let address = get_text(&members, "Address")?;
        let enable_tag_override = get_bool(&members, "EnableTagOverride")?;
        Some(AgentService { id, service, tags, port, address, enable_tag_override })
    }
}

/// The checks that a JSON value lists by name: it must be an object, and each
/// of its members must describe a check.
pub open spec fn checks_of(value: Value) -> Option<Map<Seq<char>, AgentCheckView>> {
    match json_shape(value) {
        Shape::Object(object) => if forall|name: Seq<char>| #[trigger]
            object.contains_key(name) ==> check_of(object[name]) is Some {
            Some(
                Map::new(
                    |name: Seq<char>| object.contains_key(name),
                    |name: Seq<char>| check_of(object[name])->0,
                ),
            )
        } else {
            None
        },
        _ => None,
    }
}

/// The services that a JSON value lists by name: it must be an object, and each
/// of its members must describe a service.
pub open spec fn services_of(value: Value) -> Option<Map<Seq<char>, AgentServiceView>> {
    match json_shape(value) {
        Shape::Object(object) => if forall|name: Seq<char>| #[trigger]
            object.contains_key(name) ==> service_of(object[name]) is Some {
            Some(
                Map::new(
                    |name: Seq<char>| object.contains_key(name),
                    |name: Seq<char>| service_of(object[name])->0,
                ),
            )
        } else {
            None
        },
        _ => None,
    }
}

/// What the reply to a query for the agent's checks decodes to.
pub open spec fn checks_reply(status: u16, body: Seq<u8>) -> Result<
    Map<Seq<char>, AgentCheckView>,
    ErrorView,
> {
    match json_reply(status, body) {
        Ok(value) => match checks_of(value) {
            Some(checks) => Ok(checks),
            None => Err(ErrorView::Decode(DecodeFailure::Schema)),
        },
        Err(e) => Err(e),
    }
}

/// What the reply to a query for the agent's services decodes to.
pub open spec fn services_reply(status: u16, body: Seq<u8>) -> Result<
    Map<Seq<char>, AgentServiceView>,
    ErrorView,
> {
    match json_reply(status, body) {
        Ok(value) => match services_of(value) {
            Some(services) => Ok(services),
            None => Err(ErrorView::Decode(DecodeFailure::Schema)),
        },
        Err(e) => Err(e),
    }
}

/// Reads the checks that a JSON object lists by name.
pub fn read_checks(value: &Value) -> (out: Option<Vec<(String, AgentCheck)>>)
    ensures
        match out {
            Some(list) => distinct_names(list@) && checks_of(*value) == Some(table_of(list@)),
            None => checks_of(*value) is None,
        },
{
    let Some(members) = Members::of(value) else {
        return None;
    };
    let ghost object = members@;
    let ghost entries = members.entries();
    let n = members.len();
    let mut list: Vec<(String, AgentCheck)> = Vec::new();
    let mut i: usize = 0;
    while i < n
        invariant
            i <= n,
            n == entries.len(),
            list.len() == i,
            entries == members.entries(),
            distinct_names(entries),
            object == members@,
            json_shape(*value) == Shape::Object(object),
            forall|j: int|
                0 <= j < i ==> (#[trigger] list[j]).0@ == entries[j].0@ && check_of(entries[j].1)
                    == Some(list[j].1@),
        decreases n - i,
    {
        proof {
            lemma_position(entries, i as int);
            assert(object.contains_key(entries[i as int].0@));
            assert(object[entries[i as int].0@] == entries[i as int].1);
        }
        match AgentCheck::from_json(members.value(i)) {
            None => {
                return None;
            },
            Some(check) => {
                list.push((String::from_str(members.name(i)), check));
            },
        }
        i += 1;
    }
    proof {
        assert forall|a: int, b: int| 0 <= a < b < list.len() implies #[trigger] list[a].0@
            != #[trigger] list[b].0@ by {
            assert(entries[a].0@ != entries[b].0@);
        }
        let wanted = Map::new(
            |name: Seq<char>| object.contains_key(name),
            |name: Seq<char>| check_of(object[name])->0,
        );
        assert forall|name: Seq<char>| #[trigger] object.contains_key(name) implies check_of(
            object[name],
        ) is Some && has_name(list@, name) && table_of(list@)[name] == wanted[name] by {
            let j = position(entries, name);
            lemma_position(entries, j);
            assert(list[j].0@ == name);
            lemma_position(list@, j);
        }
        assert forall|name: Seq<char>| has_name(list@, name) implies object.contains_key(name) by {
            let j = position(list@, name);
            lemma_position(entries, j);
        }
        assert(table_of(list@) =~= wanted);
    }
    Some(list)
}

/// Reads the services that a JSON object lists by name.
pub fn read_services(value: &Value) -> (out: Option<Vec<(String, AgentService)>>)
    ensures
        match out {
            Some(list) => distinct_names(list@) && services_of(*value) == Some(table_of(list@)),
            None => services_of(*value) is None,
        },
{
    let Some(members) = Members::of(value) else {
        return None;
    };
    let ghost object = members@;
    let ghost entries = members.entries();
    let n = members.len();
    let mut list: Vec<(String, AgentService)> = Vec::new();
    let mut i: usize = 0;
    while i < n
        invariant
            i <= n,
            n == entries.len(),
            list.len() == i,
            entries == members.entries(),
            distinct_names(entries),
            object == members@,
            json_shape(*value) == Shape::Object(object),
            forall|j: int|
                0 <= j < i ==> (#[trigger] list[j]).0@ == entries[j].0@ && service_of(entries[j].1)
                    == Some(list[j].1@),
        decreases n - i,
    {
        proof {
            lemma_position(entries, i as int);
            assert(object.contains_key(entries[i as int].0@));
            assert(object[entries[i as int].0@] == entries[i as int].1);
        }
        match AgentService::from_json(members.value(i)) {
            None => {
                return None;
            },
            Some(service) => {
                list.push((String::from_str(members.name(i)), service));
            },
        }
        i += 1;
    }
    proof {
        assert forall|a: int, b: int| 0 <= a < b < list.len() implies #[trigger] list[a].0@
            != #[trigger] list[b].0@ by {
            assert(entries[a].0@ != entries[b].0@);
        }
        let wanted = Map::new(
            |name: Seq<char>| object.contains_key(name),
            |name: Seq<char>| service_of(object[name])->0,
        );
        assert forall|name: Seq<char>| #[trigger] object.contains_key(name) implies service_of(
            object[name],
        ) is Some && has_name(list@, name) && table_of(list@)[name] == wanted[name] by {
            let j = position(entries, name);
            lemma_position(entries, j);
            assert(list[j].0@ == name);
            lemma_position(list@, j);
        }
        assert forall|name: Seq<char>| has_name(list@, name) implies object.contains_key(name) by {
            let j = position(list@, name);
            lemma_position(entries, j);
        }
        assert(table_of(list@) =~= wanted);
    }
    Some(list)
}

/// The query that carries a note, where there is one.
pub open spec fn note_query(note: Option<Seq<char>>) -> QueryView {
    match note {
        Some(note) => QueryView::Pairs(seq![("note"@, note)]),
        None => QueryView::Absent,
    }
}

/// The query that asks for the WAN pool instead of the LAN pool.
pub open spec fn wan_query(wan: bool) -> QueryView {
    if wan {
        QueryView::Pairs(seq![("wan"@, "1"@)])
    } else {
        QueryView::Absent
    }
}

/// The query that switches maintenance mode. The switch travels with the
/// reason: without a reason the request carries no query at all.
pub open spec fn maintenance_query(enable: bool, reason: Option<Seq<char>>) -> QueryView {
    match reason {
        Some(reason) => QueryView::Pairs(
            seq![("reason"@, reason), ("enable"@, if enable { "true"@ } else { "false"@ })],
        ),
        None => QueryView::Absent,
    }
}

/// The request that sets the status of a check: `status` is `pass`, `warn` or `fail`.
pub open spec fn status_request(
    address: Seq<char>,
    status: Seq<char>,
    check_id: Seq<char>,
    note: Option<Seq<char>>,
) -> Result<RequestView, ErrorView> {
    request_for(address, Method::Get, "agent/check"@, seq![status, check_id], note_query(note))
}

/// The request of `pass_check`.
pub open spec fn pass_check_request(
    address: Seq<char>,
    check_id: Seq<char>,
    note: Option<Seq<char>>,
) -> Result<RequestView, ErrorView> {
    status_request(address, "pass"@, check_id, note)
}

/// The request of `warn_check`.
pub open spec fn warn_check_request(
    address: Seq<char>,
    check_id: Seq<char>,
    note: Option<Seq<char>>,
) -> Result<RequestView, ErrorView> {
    status_request(address, "warn"@, check_id, note)
}

/// The request of `fail_check`.
pub open spec fn fail_check_request(
    address: Seq<char>,
    check_id: Seq<char>,
    note: Option<Seq<char>>,
) -> Result<RequestView, ErrorView> {
    status_request(address, "fail"@, check_id, note)
}

/// The id of the check that the daemon keeps for a service.
pub open spec fn service_check_id(service_id: Seq<char>) -> Seq<char> {
    "service:"@ + service_id
}

/// The request of `pass_service_check`.
pub open spec fn pass_service_check_request(
    address: Seq<char>,
    service_id: Seq<char>,
    note: Option<Seq<char>>,
) -> Result<RequestView, ErrorView> {
    request_for(
        address,
        Method::Get,
        "agent/check"@,
        seq!["pass"@, "service:"@ + service_id],
        note_query(note),
    )
}

/// The request of `warn_service_check`.
pub open spec fn warn_service_check_request(
    address: Seq<char>,
    service_id: Seq<char>,
    note: Option<Seq<char>>,
) -> Result<RequestView, ErrorView> {
    request_for(
        address,
        Method::Get,
        "agent/check"@,
        seq!["warn"@, "service:"@ + service_id],
        note_query(note),
    )
}

/// The request of `fail_service_check`.
pub open spec fn fail_service_check_request(
    address: Seq<char>,
    service_id: Seq<char>,
    note: Option<Seq<char>>,
) -> Result<RequestView, ErrorView> {
    request_for(
        address,
        Method::Get,
        "agent/check"@,
        seq!["fail"@, "service:"@ + service_id],
        note_query(note),
    )
}

/// Setting the status of the check of a service is setting the status of the
/// check whose id is `service:` and the id of the service: the two requests are
/// the same, whatever the status, the id and the note.
pub proof fn lemma_service_check_is_alias(
    address: Seq<char>,
    service_id: Seq<char>,
    note: Option<Seq<char>>,
)
    ensures
        pass_service_check_request(address, service_id, note) == pass_check_request(
            address,
            service_check_id(service_id),
            note,
        ),
        warn_service_check_request(address, service_id, note) == warn_check_request(
            address,
            service_check_id(service_id),
            note,
        ),
        fail_service_check_request(address, service_id, note) == fail_check_request(
            address,
            service_check_id(service_id),
            note,
        ),
{
}

/// The request that registers something: a `PUT` to the group, with the payload
/// as JSON text in the body.
pub open spec fn payload_request(address: Seq<char>, group: Seq<char>, payload: Value) -> Result<
    RequestView,
    ErrorView,
> {
    match request_for(address, Method::Put, group, Seq::empty(), QueryView::Absent) {
        Ok(request) => match json_text(payload) {
            Some(text) => Ok(RequestView { json: true, body: Some(encode_utf8(text)), ..request }),
            None => Err(ErrorView::Decode(DecodeFailure::Json)),
        },
        Err(e) => Err(e),
    }
}

/// The text of an optional argument.
pub open spec fn optional_view(text: Option<&str>) -> Option<Seq<char>> {
    match text {
        Some(text) => Some(text@),
        None => None,
    }
}

/// A list of one path segment.
fn one_segment(a: &str) -> (segments: Vec<String>)
    ensures
        segments.deep_view() == seq![a@],
{
    let mut segments: Vec<String> = Vec::new();
    segments.push(String::from_str(a));
    proof {
        assert(segments.deep_view() =~= seq![a@]);
    }
    segments
}

/// A list of two path segments.
fn two_segments(a: &str, b: &str) -> (segments: Vec<String>)
    ensures
        segments.deep_view() == seq![a@, b@],
{
    let mut segments: Vec<String> = Vec::new();
    segments.push(String::from_str(a));
    segments.push(String::from_str(b));
    proof {
        assert(segments.deep_view() =~= seq![a@, b@]);
    }
    segments
}

/// The query that carries a note, where there is one.
fn make_note_query(note: Option<&str>) -> (query: Query)
    ensures
        query@ == note_query(optional_view(note)),
{
    match note {
        Some(note) => {
            let mut pairs: Vec<(String, String)> = Vec::new();
            pairs.push((String::from_str("note"), String::from_str(note)));
            proof {
                assert(pairs.deep_view() =~= seq![("note"@, note@)]);
            }
            Query::Pairs(pairs)
        },
        None => Query::Absent,
    }
}

/// The query that asks for the WAN pool, where it is asked for.
fn make_wan_query(wan: bool) -> (query: Query)
    ensures
        query@ == wan_query(wan),
{
    if wan {
        let mut pairs: Vec<(String, String)> = Vec::new();
        pairs.push((String::from_str("wan"), String::from_str("1")));
        proof {
            assert(pairs.deep_view() =~= seq![("wan"@, "1"@)]);
        }
        Query::Pairs(pairs)
    } else {
        Query::Absent
    }
}

/// The query that switches maintenance mode, where a reason is given.
fn make_maintenance_query(enable: bool, reason: Option<&str>) -> (query: Query)
    ensures
        query@ == maintenance_query(enable, optional_view(reason)),
{
    match reason {
        Some(reason) => {
            let switch = if enable {
                "true"
            } else {
                "false"
            };
            let mut pairs: Vec<(String, String)> = Vec::new();
            pairs.push((String::from_str("reason"), String::from_str(reason)));
            pairs.push((String::from_str("enable"), String::from_str(switch)));
            proof {
                assert(pairs.deep_view() =~= seq![("reason"@, reason@), ("enable"@, switch@)]);
            }
            Query::Pairs(pairs)
        },
        None => Query::Absent,
    }
}

/// The operations on the local agent. Each one builds the request to send; the
/// reply is read by the function that the operation names.
pub struct Agent<'a> {
    consul: &'a Consul,
}

impl<'a> View for Agent<'a> {
    type V = Seq<char>;

    /// The address of the daemon.
    closed spec fn view(&self) -> Seq<char> {
        self.consul@
    }
}

impl<'a> Agent<'a> {
    /// The agent operations of a client.
    pub fn new(consul: &'a Consul) -> (agent: Self)
        ensures
            agent@ == consul@,
    {
        Agent { consul }
    }

    /// A `PUT` to a group with a JSON payload as its body.
    fn send_payload(&self, group: &str, payload: &Value) -> (out: Result<Request, Error>)
        ensures
            yields(out, payload_request(self@, group@, *payload)),
    {
        match self.consul._request1(Method::Put, group) {
            Ok(request) => match print_json(payload) {
                Some(text) => Ok(request.json_body(text.as_str())),
                None => Err(Error::Decode(DecodeFailure::Json)),
            },
            Err(e) => Err(e),
        }
    }

    /// Asks for the checks that the agent knows. The reply is read by `checks_reply`.
    pub fn checks(&self) -> (out: Result<Request, Error>)
        ensures
            yields(
                out,
                request_for(self@, Method::Get, "agent/checks"@, Seq::empty(), QueryView::Absent),
            ),
    {
        self.consul._request1(Method::Get, "agent/checks")
    }

    /// Registers a check: the payload holds the fields that are set. The reply
    /// is read by `Response::done`.
    pub fn register_check(&self, check: &AgentCheckRegistration) -> (out: Result<Request, Error>)
        ensures
            yields(
                out,
                payload_request(self@, "agent/check/register"@, check_registration_json(check@)),
            ),
    {
        self.send_payload("agent/check/register", &check.to_json())
    }

    /// Removes a check from the agent. The reply is read by `Response::done`.
    pub fn deregister_check(&self, check_id: &str) -> (out: Result<Request, Error>)
        ensures
            yields(
                out,
                request_for(
                    self@,
                    Method::Get,
                    "agent/check/deregister"@,
                    seq![check_id@],
                    QueryView::Absent,
                ),
            ),
    {
        self.consul._request2(Method::Get, "agent/check/deregister", &one_segment(check_id))
    }

    /// Sets the status of a check: `status` is the name of the transition,
    /// `pass`, `warn` or `fail`, and the note travels in the query.
    pub fn _set_check_status(
        &self,
        check_id: &str,
        status: &str,
        note: Option<&str>,
    ) -> (out: Result<Request, Error>)
        ensures
            yields(out, status_request(self@, status@, check_id@, optional_view(note))),
    {
        self.consul._request3(
            Method::Get,
            "agent/check",
            &two_segments(status, check_id),
            &make_note_query(note),
        )
    }

    /// Sets a check to passing. The reply is read by `Response::done`.
    pub fn pass_check(&self, check_id: &str, note: Option<&str>) -> (out: Result<Request, Error>)
        ensures
            yields(out, pass_check_request(self@, check_id@, optional_view(note))),
    {
        self._set_check_status(check_id, "pass", note)
    }

    /// Sets a check to warning. The reply is read by `Response::done`.
    pub fn warn_check(&self, check_id: &str, note: Option<&str>) -> (out: Result<Request, Error>)
        ensures
            yields(out, warn_check_request(self@, check_id@, optional_view(note))),
    {
        self._set_check_status(check_id, "warn", note)
    }

    /// Sets a check to critical. The reply is read by `Response::done`.
    pub fn fail_check(&self, check_id: &str, note: Option<&str>) -> (out: Result<Request, Error>)
        ensures
            yields(out, fail_check_request(self@, check_id@, optional_view(note))),
    {
        self._set_check_status(check_id, "fail", note)
    }

    /// Asks for the services that the agent knows. The reply is read by `services_reply`.
    pub fn services(&self) -> (out: Result<Request, Error>)
        ensures
            yields(
                out,
                request_for(self@, Method::Get, "agent/services"@, Seq::empty(), QueryView::Absent),
            ),
    {
        self.consul._request1(Method::Get, "agent/services")
    }

    /// Registers a service, with its check if it has one. The reply is read by
    /// `Response::done`.
    pub fn register_service(&self, service: &AgentServiceRegistration) -> (out: Result<
        Request,
        Error,
    >)
        ensures
            yields(
                out,
                payload_request(
                    self@,
                    "agent/service/register"@,
                    service_registration_json(service@),
                ),
            ),
    {
        self.send_payload("agent/service/register", &service.to_json())
    }

    /// Removes a service from the agent. The reply is read by `Response::done`.
    pub fn deregister_service(&self, service_id: &str) -> (out: Result<Request, Error>)
        ensures
            yields(
                out,
                request_for(
                    self@,
                    Method::Get,
                    "agent/service/deregister"@,
                    seq![service_id@],
                    QueryView::Absent,
                ),
            ),
    {
        self.consul._request2(Method::Get, "agent/service/deregister", &one_segment(service_id))
    }

    /// Switches the maintenance mode of a service. The reply is read by `Response::done`.
    pub fn maintenance_service(
        &self,
        service_id: &str,
        enable: bool,
        reason: Option<&str>,
    ) -> (out: Result<Request, Error>)
        ensures
            yields(
                out,
                request_for(
                    self@,
                    Method::Put,
                    "agent/service/maintenance"@,
                    seq![service_id@],
                    maintenance_query(enable, optional_view(reason)),
                ),
            ),
    {
        self.consul._request3(
            Method::Put,
            "agent/service/maintenance",
            &one_segment(service_id),
            &make_maintenance_query(enable, reason),
        )
    }

    /// Sets the check of a service to passing. The reply is read by `Response::done`.
    pub fn pass_service_check(&self, service_id: &str, note: Option<&str>) -> (out: Result<
        Request,
        Error,
    >)
        ensures
            yields(out, pass_service_check_request(self@, service_id@, optional_view(note))),
    {
        let check_id = String::from_str("service:").concat(service_id);
        self.pass_check(check_id.as_str(), note)
    }

    /// Sets the check of a service to warning. The reply is read by `Response::done`.
    pub fn warn_service_check(&self, service_id: &str, note: Option<&str>) -> (out: Result<
        Request,
        Error,
    >)
        ensures
            yields(out, warn_service_check_request(self@, service_id@, optional_view(note))),
    {
        let check_id = String::from_str("service:").concat(service_id);
        self.warn_check(check_id.as_str(), note)
    }

    /// Sets the check of a service to critical. The reply is read by `Response::done`.
    pub fn fail_service_check(&self, service_id: &str, note: Option<&str>) -> (out: Result<
        Request,
        Error,
    >)
        ensures
            yields(out, fail_service_check_request(self@, service_id@, optional_view(note))),
    {
        let check_id = String::from_str("service:").concat(service_id);
        self.fail_check(check_id.as_str(), note)
    }

    /// Asks for the members that the agent sees in the LAN pool, or in the WAN
    /// pool. The reply is read by `Response::json`.
    pub fn members_j(&self, wan: bool) -> (out: Result<Request, Error>)
        ensures
            yields(
                out,
                request_for(self@, Method::Get, "agent"@, seq!["members"@], wan_query(wan)),
            ),
    {
        self.consul._request3(Method::Get, "agent", &one_segment("members"), &make_wan_query(wan))
    }

    /// Asks for the configuration and member record of the agent itself. The
    /// reply is read by `Response::json`.
    pub fn self_j(&self) -> (out: Result<Request, Error>)
        ensures
            yields(
                out,
                request_for(self@, Method::Get, "agent/self"@, Seq::empty(), QueryView::Absent),
            ),
    {
        self.consul._request1(Method::Get, "agent/self")
    }

    /// Tells the agent to read its configuration again. The reply is read by `Response::done`.
    pub fn reload(&self) -> (out: Result<Request, Error>)
        ensures
            yields(
                out,
                request_for(self@, Method::Put, "agent/reload"@, Seq::empty(), QueryView::Absent),
            ),
    {
        self.consul._request1(Method::Put, "agent/reload")
    }

    /// Switches the maintenance mode of the node. The reply is read by `Response::done`.
    pub fn maintenance(&self, enable: bool, reason: Option<&str>) -> (out: Result<Request, Error>)
        ensures
            yields(
                out,
                request_for(
                    self@,
                    Method::Put,
                    "agent"@,
                    seq!["maintenance"@],
                    maintenance_query(enable, optional_view(reason)),
                ),
            ),
    {
        self.consul._request3(
            Method::Put,
            "agent",
            &one_segment("maintenance"),
            &make_maintenance_query(enable, reason),
        )
    }

    /// Tells the agent to join the node at `address`. The reply is read by `Response::done`.
    pub fn join(&self, address: &str, wan: bool) -> (out: Result<Request, Error>)
        ensures
            yields(
                out,
                request_for(self@, Method::Put, "agent/join"@, seq![address@], wan_query(wan)),
            ),
    {
        self.consul._request3(
            Method::Put,
            "agent/join",
            &one_segment(address),
            &make_wan_query(wan),
        )
    }

    /// Tells the agent to leave the cluster. The reply is read by `Response::done`.
    pub fn leave(&self) -> (out: Result<Request, Error>)
        ensures
            yields(
                out,
                request_for(self@, Method::Put, "agent/leave"@, Seq::empty(), QueryView::Absent),
            ),
    {
        self.consul._request1(Method::Put, "agent/leave")
    }

    /// Tells the agent to treat `node` as having left. The reply is read by `Response::done`.
    pub fn force_leave(&self, node: &str) -> (out: Result<Request, Error>)
        ensures
            yields(
                out,
                request_for(
                    self@,
                    Method::Put,
                    "agent/force-leave"@,
                    seq![node@],
                    QueryView::Absent,
                ),
            ),
    {
        self.consul._request2(Method::Put, "agent/force-leave", &one_segment(node))
    }

    /// Reads the reply to `checks`: the checks by name, each name once.
    pub fn checks_reply(reply: &Response) -> (out: Result<Vec<(String, AgentCheck)>, Error>)
        ensures
            match out {
                Ok(list) => distinct_names(list@) && gives(
                    checks_reply(reply.status, reply.body@),
                    table_of(list@),
                ),
                Err(e) => refuses(checks_reply(reply.status, reply.body@), e@),
            },
    {
        match reply.json() {
            Ok(value) => match read_checks(&value) {
                Some(list) => Ok(list),
                None => Err(Error::Decode(DecodeFailure::Schema)),
            },
            Err(e) => Err(e),
        }
    }

    /// Reads the reply to `services`: the services by name, each name once.
    pub fn services_reply(reply: &Response) -> (out: Result<Vec<(String, AgentService)>, Error>)
        ensures
            match out {
                Ok(list) => distinct_names(list@) && gives(
                    services_reply(reply.status, reply.body@),
                    table_of(list@),
                ),
                Err(e) => refuses(services_reply(reply.status, reply.body@), e@),
            },
    {
        match reply.json() {
            Ok(value) => match read_services(&value) {
                Some(list) => Ok(list),
                None => Err(Error::Decode(DecodeFailure::Schema)),
            },
            Err(e) => Err(e),
        }
    }
}

} // verus!
