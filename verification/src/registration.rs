//! The JSON form of registration payloads.
//!
//! A payload holds the fields that are set and no others. Reading one back
//! accepts the names of the schema only: a name that the schema does not know is
//! refused, so that a misspelt field is not silently dropped.

use crate::agent::{
    AgentCheckRegistration, AgentCheckRegistrationView, AgentServiceRegistration,
    AgentServiceRegistrationView,
};
use crate::error::{gives, refuses, DecodeFailure};
use crate::json::{
    bool_of, bool_value, distinct_fields, get_optional_bool, get_optional_natural,
    get_optional_text, get_optional_texts, get_text, is_null, json_shape, json_value,
    lemma_object_with_member, lemma_object_with_names, make_bool, make_natural, make_text,
    make_texts, member, natural_of, natural_value, object_with, optional_bool,
    optional_natural, optional_text, optional_texts, required_text, text_of, text_value, texts_of,
    texts_value, Members, Payload, Shape,
};
use crate::table::{distinct_names, lemma_position, position};
use crate::text::same_text;
use serde_json::Value;
use vstd::prelude::*;
use vstd::string::*;

verus! {

broadcast use vstd::string::group_string_axioms;

/// A number that tells two field names apart: it is made of the length of the
/// name and of its first two characters.
spec fn mark(name: Seq<char>) -> int {
    name.len() * 1000000 + (name[0] as int) * 1000 + (name[1] as int)
}

/// Whether `name` is the name of a field of a check registration.
pub open spec fn is_check_field(name: Seq<char>) -> bool {
    name == "ID"@
        || name == "Name"@
        || name == "ServiceID"@
        || name == "Script"@
        || name == "DockerContainerID"@
        || name == "Shell"@
        || name == "Interval"@
        || name == "Timeout"@
        || name == "TTL"@
        || name == "HTTP"@
        || name == "TCP"@
        || name == "Status"@
        || name == "Notes"@
        || name == "TLSSkipVerify"@
        || name == "DeregisterCriticalServiceAfter"@
}

/// Whether `name` is the name of a field of a service registration.
pub open spec fn is_service_field(name: Seq<char>) -> bool {
    name == "ID"@
        || name == "Name"@
        || name == "Tags"@
        || name == "Port"@
        || name == "Address"@
        || name == "EnableTagOverride"@
        || name == "Check"@
}

/// Whether an object has no member but those that `known` accepts.
pub open spec fn known_only(
    object: Map<Seq<char>, Value>,
    known: spec_fn(Seq<char>) -> bool,
) -> bool {
    forall|name: Seq<char>| #[trigger] object.contains_key(name) ==> known(name)
}

/// The port of a member that may be left out or `null`, and is a whole number
/// that fits 32 bits otherwise.
pub open spec fn optional_port(
    object: Map<Seq<char>, Value>,
    name: Seq<char>,
) -> Option<Option<u32>> {
    match optional_natural(object, name) {
        Some(Some(n)) => if n <= u32::MAX {
            Some(Some(n as u32))
        } else {
            None
        },
        Some(None) => Some(None),
        None => None,
    }
}

/// The check registration of a member that may be left out or `null`, and is a
/// check registration otherwise.
pub open spec fn optional_check(object: Map<Seq<char>, Value>, name: Seq<char>) -> Result<
    Option<AgentCheckRegistrationView>,
    DecodeFailure,
> {
    match member(object, name) {
        None => Ok(None),
        Some(value) => if json_shape(value) == Shape::Null {
            Ok(None)
        } else {
            match check_registration_of(value) {
                Ok(check) => Ok(Some(check)),
                Err(e) => Err(e),
            }
        },
    }
}

/// The check registration that an object spells out. A member under an unknown
/// name makes it an error, whatever the other members hold.
pub open spec fn check_registration_in(
    object: Map<Seq<char>, Value>,
) -> Result<AgentCheckRegistrationView, DecodeFailure> {
    if !known_only(object, |name: Seq<char>| is_check_field(name)) {
        Err(DecodeFailure::UnknownField)
    } else if optional_text(object, "ID"@) is Some
        && required_text(object, "Name"@) is Some
        && optional_text(object, "ServiceID"@) is Some
        && optional_text(object, "Script"@) is Some
        && optional_text(object, "DockerContainerID"@) is Some
        && optional_text(object, "Shell"@) is Some
        && optional_text(object, "Interval"@) is Some
        && optional_text(object, "Timeout"@) is Some
        && optional_text(object, "TTL"@) is Some
        && optional_text(object, "HTTP"@) is Some
        && optional_text(object, "TCP"@) is Some
        && optional_text(object, "Status"@) is Some
        && optional_text(object, "Notes"@) is Some
        && optional_bool(object, "TLSSkipVerify"@) is Some
        && optional_text(object, "DeregisterCriticalServiceAfter"@) is Some {
        Ok(
            AgentCheckRegistrationView {
                id: optional_text(object, "ID"@)->0,
                name: required_text(object, "Name"@)->0,
                service_id: optional_text(object, "ServiceID"@)->0,
                script: optional_text(object, "Script"@)->0,
                docker_container_id: optional_text(object, "DockerContainerID"@)->0,
                shell: optional_text(object, "Shell"@)->0,
                interval: optional_text(object, "Interval"@)->0,
                timeout: optional_text(object, "Timeout"@)->0,
                ttl: optional_text(object, "TTL"@)->0,
                http: optional_text(object, "HTTP"@)->0,
                tcp: optional_text(object, "TCP"@)->0,
                status: optional_text(object, "Status"@)->0,
                notes: optional_text(object, "Notes"@)->0,
                tls_skip_verify: optional_bool(object, "TLSSkipVerify"@)->0,
                deregister_critical_service_after: optional_text(
                    object,
                    "DeregisterCriticalServiceAfter"@,
                )->0,
            },
        )
    } else {
        Err(DecodeFailure::Schema)
    }
}

/// The check registration that a JSON value spells out.
pub open spec fn check_registration_of(
    value: Value,
) -> Result<AgentCheckRegistrationView, DecodeFailure> {
    match json_shape(value) {
        Shape::Object(object) => check_registration_in(object),
        _ => Err(DecodeFailure::Schema),
    }
}

/// The service registration that an object spells out. A member under an unknown
/// name makes it an error, whatever the other members hold.
pub open spec fn service_registration_in(
    object: Map<Seq<char>, Value>,
) -> Result<AgentServiceRegistrationView, DecodeFailure> {
    if !known_only(object, |name: Seq<char>| is_service_field(name)) {
        Err(DecodeFailure::UnknownField)
    } else if optional_text(object, "ID"@) is Some
        && required_text(object, "Name"@) is Some
        && optional_texts(object, "Tags"@) is Some
        && optional_port(object, "Port"@) is Some
        && optional_text(object, "Address"@) is Some
        && optional_bool(object, "EnableTagOverride"@) is Some {
        match optional_check(object, "Check"@) {
            Ok(check) => Ok(
                AgentServiceRegistrationView {
                    id: optional_text(object, "ID"@)->0,
                    name: required_text(object, "Name"@)->0,
                    tags: optional_texts(object, "Tags"@)->0,
                    port: optional_port(object, "Port"@)->0,
                    address: optional_text(object, "Address"@)->0,
                    enable_tag_override: optional_bool(object, "EnableTagOverride"@)->0,
                    check: check,
                },
            ),
            Err(e) => Err(e),
        }
    } else {
        Err(DecodeFailure::Schema)
    }
}

/// The service registration that a JSON value spells out.
pub open spec fn service_registration_of(
    value: Value,
) -> Result<AgentServiceRegistrationView, DecodeFailure> {
    match json_shape(value) {
        Shape::Object(object) => service_registration_in(object),
        _ => Err(DecodeFailure::Schema),
    }
}

/// The value of an optional text field, where the field is set.
pub open spec fn optional_value_text(text: Option<Seq<char>>) -> Option<Value> {
    match text {
        Some(text) => Some(text_value(text)),
        None => None,
    }
}

/// The value of an optional flag, where the field is set.
pub open spec fn optional_value_bool(flag: Option<bool>) -> Option<Value> {
    match flag {
        Some(flag) => Some(bool_value(flag)),
        None => None,
    }
}

/// The value of an optional list of texts, where the field is set.
pub open spec fn optional_value_texts(texts: Option<Seq<Seq<char>>>) -> Option<Value> {
    match texts {
        Some(texts) => Some(texts_value(texts)),
        None => None,
    }
}

/// The value of an optional port, where the field is set.
pub open spec fn optional_value_port(port: Option<u32>) -> Option<Value> {
    match port {
        Some(port) => Some(natural_value(port as u64)),
        None => None,
    }
}

/// The value of an optional check registration, where the field is set.
pub open spec fn optional_value_check(check: Option<AgentCheckRegistrationView>) -> Option<Value> {
    match check {
        Some(check) => Some(check_registration_json(check)),
        None => None,
    }
}

/// The fields of the payload of a check registration, in the order of the
/// schema: each name with the value that stands for the field, if it is set.
pub open spec fn check_registration_fields(
    r: AgentCheckRegistrationView,
) -> Seq<(Seq<char>, Option<Value>)> {
    seq![
        ("ID"@, optional_value_text(r.id)),
        ("Name"@, Some(text_value(r.name))),
        ("ServiceID"@, optional_value_text(r.service_id)),
        ("Script"@, optional_value_text(r.script)),
        ("DockerContainerID"@, optional_value_text(r.docker_container_id)),
        ("Shell"@, optional_value_text(r.shell)),
        ("Interval"@, optional_value_text(r.interval)),
        ("Timeout"@, optional_value_text(r.timeout)),
        ("TTL"@, optional_value_text(r.ttl)),
        ("HTTP"@, optional_value_text(r.http)),
        ("TCP"@, optional_value_text(r.tcp)),
        ("Status"@, optional_value_text(r.status)),
        ("Notes"@, optional_value_text(r.notes)),
        ("TLSSkipVerify"@, optional_value_bool(r.tls_skip_verify)),
        (
            "DeregisterCriticalServiceAfter"@,
            optional_value_text(r.deregister_critical_service_after),
        ),
    ]
}

/// The members of the payload of a check registration: one for each field that is set.
pub open spec fn check_registration_object(r: AgentCheckRegistrationView) -> Map<Seq<char>, Value> {
    object_with(check_registration_fields(r))
}

/// The payload of a check registration, as a JSON value.
pub open spec fn check_registration_json(r: AgentCheckRegistrationView) -> Value {
    json_value(Shape::Object(check_registration_object(r)))
}

/// The fields of the payload of a service registration, in the order of the
/// schema: each name with the value that stands for the field, if it is set.
pub open spec fn service_registration_fields(
    r: AgentServiceRegistrationView,
) -> Seq<(Seq<char>, Option<Value>)> {
    seq![
        ("ID"@, optional_value_text(r.id)),
        ("Name"@, Some(text_value(r.name))),
        ("Tags"@, optional_value_texts(r.tags)),
        ("Port"@, optional_value_port(r.port)),
        ("Address"@, optional_value_text(r.address)),
        ("EnableTagOverride"@, optional_value_bool(r.enable_tag_override)),
        ("Check"@, optional_value_check(r.check)),
    ]
}

/// The members of the payload of a service registration: one for each field that is set.
pub open spec fn service_registration_object(
    r: AgentServiceRegistrationView,
) -> Map<Seq<char>, Value> {
    object_with(service_registration_fields(r))
}

/// The payload of a service registration, as a JSON value.
pub open spec fn service_registration_json(r: AgentServiceRegistrationView) -> Value {
    json_value(Shape::Object(service_registration_object(r)))
}

/// Whether the value made of a text, where there is one, is a string that holds it.
pub open spec fn reads_text(text: Option<Seq<char>>) -> bool {
    text matches Some(t) ==> text_of(text_value(t)) == Some(t)
}

/// Whether the value made of a flag, where there is one, is a truth value that holds it.
pub open spec fn reads_bool(flag: Option<bool>) -> bool {
    flag matches Some(b) ==> bool_of(bool_value(b)) == Some(b)
}

/// Whether the value made of a list of texts, where there is one, is an array that holds them.
pub open spec fn reads_texts(texts: Option<Seq<Seq<char>>>) -> bool {
    texts matches Some(t) ==> texts_of(texts_value(t)) == Some(t)
}

/// Whether the value made of a port, where there is one, is a number that holds it.
pub open spec fn reads_port(port: Option<u32>) -> bool {
    port matches Some(p) ==> natural_of(natural_value(p as u64)) == Some(p as u64)
}

/// Whether the payload of a check registration, where there is one, spells it out.
pub open spec fn reads_check(check: Option<AgentCheckRegistrationView>) -> bool {
    check matches Some(c) ==> gives(check_registration_of(check_registration_json(c)), c)
}

/// Whether each value in the payload of a check registration holds what it was
/// made of. It is so for the values that this module makes.
pub open spec fn check_reads_back(r: AgentCheckRegistrationView) -> bool {
    reads_text(r.id)
        && reads_text(Some(r.name))
        && reads_text(r.service_id)
        && reads_text(r.script)
        && reads_text(r.docker_container_id)
        && reads_text(r.shell)
        && reads_text(r.interval)
        && reads_text(r.timeout)
        && reads_text(r.ttl)
        && reads_text(r.http)
        && reads_text(r.tcp)
        && reads_text(r.status)
        && reads_text(r.notes)
        && reads_bool(r.tls_skip_verify)
        && reads_text(r.deregister_critical_service_after)
}

/// The fields of a check registration go by 15 names, no two of them alike.
pub proof fn lemma_check_fields(r: AgentCheckRegistrationView)
    ensures
        distinct_fields(check_registration_fields(r)),
        check_registration_fields(r).len() == 15,
        forall|j: int| 0 <= j < 15 ==> is_check_field(#[trigger] check_registration_fields(r)[j].0),
{
    reveal_strlit("ID");
    reveal_strlit("Name");
    reveal_strlit("ServiceID");
    reveal_strlit("Script");
    reveal_strlit("DockerContainerID");
    reveal_strlit("Shell");
    reveal_strlit("Interval");
    reveal_strlit("Timeout");
    reveal_strlit("TTL");
    reveal_strlit("HTTP");
    reveal_strlit("TCP");
    reveal_strlit("Status");
    reveal_strlit("Notes");
    reveal_strlit("TLSSkipVerify");
    reveal_strlit("DeregisterCriticalServiceAfter");
    let fields = check_registration_fields(r);
    assert(fields[0].0 == "ID"@ && fields[0].0[0] == 'I' && fields[0].0[1] == 'D');
    assert(fields[1].0 == "Name"@ && fields[1].0[0] == 'N' && fields[1].0[1] == 'a');
    assert(fields[2].0 == "ServiceID"@ && fields[2].0[0] == 'S' && fields[2].0[1] == 'e');
    assert(fields[3].0 == "Script"@ && fields[3].0[0] == 'S' && fields[3].0[1] == 'c');
    assert(fields[4].0 == "DockerContainerID"@ && fields[4].0[0] == 'D' && fields[4].0[1] == 'o');
    assert(fields[5].0 == "Shell"@ && fields[5].0[0] == 'S' && fields[5].0[1] == 'h');
    assert(fields[6].0 == "Interval"@ && fields[6].0[0] == 'I' && fields[6].0[1] == 'n');
    assert(fields[7].0 == "Timeout"@ && fields[7].0[0] == 'T' && fields[7].0[1] == 'i');
    assert(fields[8].0 == "TTL"@ && fields[8].0[0] == 'T' && fields[8].0[1] == 'T');
    assert(fields[9].0 == "HTTP"@ && fields[9].0[0] == 'H' && fields[9].0[1] == 'T');
    assert(fields[10].0 == "TCP"@ && fields[10].0[0] == 'T' && fields[10].0[1] == 'C');
    assert(fields[11].0 == "Status"@ && fields[11].0[0] == 'S' && fields[11].0[1] == 't');
    assert(fields[12].0 == "Notes"@ && fields[12].0[0] == 'N' && fields[12].0[1] == 'o');
    assert(fields[13].0 == "TLSSkipVerify"@ && fields[13].0[0] == 'T' && fields[13].0[1] == 'L');
    assert(fields[14].0 == "DeregisterCriticalServiceAfter"@ && fields[14].0[0] == 'D'
        && fields[14].0[1] == 'e');
    assert forall|i: int, j: int| 0 <= i < j < fields.len() implies fields[i].0 != fields[j].0 by {
        assert(mark(fields[i].0) != mark(fields[j].0));
    }
}

/// An object that holds under each name of the schema just the value of that
/// field, and no member under another name, spells the check registration out.
proof fn lemma_check_registration_reads_back_from_members(
    object: Map<Seq<char>, Value>,
    r: AgentCheckRegistrationView,
)
    requires
        check_reads_back(r),
        known_only(object, |name: Seq<char>| is_check_field(name)),
        member(object, "ID"@) == optional_value_text(r.id),
        member(object, "Name"@) == Some(text_value(r.name)),
        member(object, "ServiceID"@) == optional_value_text(r.service_id),
        member(object, "Script"@) == optional_value_text(r.script),
        member(object, "DockerContainerID"@) == optional_value_text(r.docker_container_id),
        member(object, "Shell"@) == optional_value_text(r.shell),
        member(object, "Interval"@) == optional_value_text(r.interval),
        member(object, "Timeout"@) == optional_value_text(r.timeout),
        member(object, "TTL"@) == optional_value_text(r.ttl),
        member(object, "HTTP"@) == optional_value_text(r.http),
        member(object, "TCP"@) == optional_value_text(r.tcp),
        member(object, "Status"@) == optional_value_text(r.status),
        member(object, "Notes"@) == optional_value_text(r.notes),
        member(object, "TLSSkipVerify"@) == optional_value_bool(r.tls_skip_verify),
        member(object, "DeregisterCriticalServiceAfter"@) == optional_value_text(
            r.deregister_critical_service_after,
        ),
    ensures
        gives(check_registration_in(object), r),
{
    assert(optional_text(object, "ID"@) == Some(r.id));
    assert(required_text(object, "Name"@) == Some(r.name));
    assert(optional_text(object, "ServiceID"@) == Some(r.service_id));
    assert(optional_text(object, "Script"@) == Some(r.script));
    assert(optional_text(object, "DockerContainerID"@) == Some(r.docker_container_id));
    assert(optional_text(object, "Shell"@) == Some(r.shell));
    assert(optional_text(object, "Interval"@) == Some(r.interval));
    assert(optional_text(object, "Timeout"@) == Some(r.timeout));
    assert(optional_text(object, "TTL"@) == Some(r.ttl));
    assert(optional_text(object, "HTTP"@) == Some(r.http));
    assert(optional_text(object, "TCP"@) == Some(r.tcp));
    assert(optional_text(object, "Status"@) == Some(r.status));
    assert(optional_text(object, "Notes"@) == Some(r.notes));
    assert(optional_bool(object, "TLSSkipVerify"@) == Some(r.tls_skip_verify));
    assert(optional_text(object, "DeregisterCriticalServiceAfter"@) == Some(
        r.deregister_critical_service_after,
    ));
}

/// Reading the members of the payload of a check registration gives the
/// registration back: each field that is set is found under its name, a field
/// that is not set is not there, and no other name is.
pub proof fn lemma_check_registration_reads_back(r: AgentCheckRegistrationView)
    requires
        check_reads_back(r),
    ensures
        gives(check_registration_in(check_registration_object(r)), r),
{
    let fields = check_registration_fields(r);
    let object = check_registration_object(r);
    assert(member(object, "ID"@) == optional_value_text(r.id)) by {
        lemma_check_fields(r);
        lemma_object_with_member(fields, 0);
    }
    assert(member(object, "Name"@) == Some(text_value(r.name))) by {
        lemma_check_fields(r);
        lemma_object_with_member(fields, 1);
    }
    assert(member(object, "ServiceID"@) == optional_value_text(r.service_id)) by {
        lemma_check_fields(r);
        lemma_object_with_member(fields, 2);
    }
    assert(member(object, "Script"@) == optional_value_text(r.script)) by {
        lemma_check_fields(r);
        lemma_object_with_member(fields, 3);
    }
    assert(member(object, "DockerContainerID"@) == optional_value_text(r.docker_container_id)) by {
        lemma_check_fields(r);
        lemma_object_with_member(fields, 4);
    }
    assert(member(object, "Shell"@) == optional_value_text(r.shell)) by {
        lemma_check_fields(r);
        lemma_object_with_member(fields, 5);
    }
    assert(member(object, "Interval"@) == optional_value_text(r.interval)) by {
        lemma_check_fields(r);
        lemma_object_with_member(fields, 6);
    }
    assert(member(object, "Timeout"@) == optional_value_text(r.timeout)) by {
        lemma_check_fields(r);
        lemma_object_with_member(fields, 7);
    }
    assert(member(object, "TTL"@) == optional_value_text(r.ttl)) by {
        lemma_check_fields(r);
        lemma_object_with_member(fields, 8);
    }
    assert(member(object, "HTTP"@) == optional_value_text(r.http)) by {
        lemma_check_fields(r);
        lemma_object_with_member(fields, 9);
    }
    assert(member(object, "TCP"@) == optional_value_text(r.tcp)) by {
        lemma_check_fields(r);
        lemma_object_with_member(fields, 10);
    }
    assert(member(object, "Status"@) == optional_value_text(r.status)) by {
        lemma_check_fields(r);
        lemma_object_with_member(fields, 11);
    }
    assert(member(object, "Notes"@) == optional_value_text(r.notes)) by {
        lemma_check_fields(r);
        lemma_object_with_member(fields, 12);
    }
    assert(member(object, "TLSSkipVerify"@) == optional_value_bool(r.tls_skip_verify)) by {
        lemma_check_fields(r);
        lemma_object_with_member(fields, 13);
    }
    assert(member(object, "DeregisterCriticalServiceAfter"@) == optional_value_text(
        r.deregister_critical_service_after,
    )) by {
        lemma_check_fields(r);
        lemma_object_with_member(fields, 14);
    }
    assert(known_only(object, |name: Seq<char>| is_check_field(name))) by {
        lemma_check_fields(r);
        assert forall|name: Seq<char>| #[trigger] object.contains_key(name) implies is_check_field(
            name,
        ) by {
            lemma_object_with_names(fields, name);
        }
    }
    lemma_check_registration_reads_back_from_members(object, r);
}

/// Whether each value in the payload of a service registration holds what it was
/// made of. It is so for the values that this module makes.
pub open spec fn service_reads_back(r: AgentServiceRegistrationView) -> bool {
    reads_text(r.id)
        && reads_text(Some(r.name))
        && reads_texts(r.tags)
        && reads_port(r.port)
        && reads_text(r.address)
        && reads_bool(r.enable_tag_override)
        && reads_check(r.check)
}

/// The fields of a service registration go by 7 names, no two of them alike.
pub proof fn lemma_service_fields(r: AgentServiceRegistrationView)
    ensures
        distinct_fields(service_registration_fields(r)),
        service_registration_fields(r).len() == 7,
        forall|j: int|
            0 <= j < 7 ==> is_service_field(#[trigger] service_registration_fields(r)[j].0),
{
    reveal_strlit("ID");
    reveal_strlit("Name");
    reveal_strlit("Tags");
    reveal_strlit("Port");
    reveal_strlit("Address");
    reveal_strlit("EnableTagOverride");
    reveal_strlit("Check");
    let fields = service_registration_fields(r);
    assert(fields[0].0 == "ID"@ && fields[0].0[0] == 'I' && fields[0].0[1] == 'D');
    assert(fields[1].0 == "Name"@ && fields[1].0[0] == 'N' && fields[1].0[1] == 'a');
    assert(fields[2].0 == "Tags"@ && fields[2].0[0] == 'T' && fields[2].0[1] == 'a');
    assert(fields[3].0 == "Port"@ && fields[3].0[0] == 'P' && fields[3].0[1] == 'o');
    assert(fields[4].0 == "Address"@ && fields[4].0[0] == 'A' && fields[4].0[1] == 'd');
    assert(fields[5].0 == "EnableTagOverride"@ && fields[5].0[0] == 'E' && fields[5].0[1] == 'n');
    assert(fields[6].0 == "Check"@ && fields[6].0[0] == 'C' && fields[6].0[1] == 'h');
    assert forall|i: int, j: int| 0 <= i < j < fields.len() implies fields[i].0 != fields[j].0 by {
        assert(mark(fields[i].0) != mark(fields[j].0));
    }
}

/// An object that holds under each name of the schema just the value of that
/// field, and no member under another name, spells the service registration out.
proof fn lemma_service_registration_reads_back_from_members(
    object: Map<Seq<char>, Value>,
    r: AgentServiceRegistrationView,
)
    requires
        service_reads_back(r),
        known_only(object, |name: Seq<char>| is_service_field(name)),
        member(object, "ID"@) == optional_value_text(r.id),
        member(object, "Name"@) == Some(text_value(r.name)),
        member(object, "Tags"@) == optional_value_texts(r.tags),
        member(object, "Port"@) == optional_value_port(r.port),
        member(object, "Address"@) == optional_value_text(r.address),
        member(object, "EnableTagOverride"@) == optional_value_bool(r.enable_tag_override),
        member(object, "Check"@) == optional_value_check(r.check),
    ensures
        gives(service_registration_in(object), r),
{
    assert(optional_text(object, "ID"@) == Some(r.id));
    assert(required_text(object, "Name"@) == Some(r.name));
    assert(optional_texts(object, "Tags"@) == Some(r.tags));
    assert(optional_port(object, "Port"@) == Some(r.port));
    assert(optional_text(object, "Address"@) == Some(r.address));
    assert(optional_bool(object, "EnableTagOverride"@) == Some(r.enable_tag_override));
    assert(gives(optional_check(object, "Check"@), r.check));
}

/// Reading the members of the payload of a service registration gives the
/// registration back: each field that is set is found under its name, a field
/// that is not set is not there, and no other name is.
pub proof fn lemma_service_registration_reads_back(r: AgentServiceRegistrationView)
    requires
        service_reads_back(r),
    ensures
        gives(service_registration_in(service_registration_object(r)), r),
{
    let fields = service_registration_fields(r);
    let object = service_registration_object(r);
    assert(member(object, "ID"@) == optional_value_text(r.id)) by {
        lemma_service_fields(r);
        lemma_object_with_member(fields, 0);
    }
    assert(member(object, "Name"@) == Some(text_value(r.name))) by {
        lemma_service_fields(r);
        lemma_object_with_member(fields, 1);
    }
    assert(member(object, "Tags"@) == optional_value_texts(r.tags)) by {
        lemma_service_fields(r);
        lemma_object_with_member(fields, 2);
    }
    assert(member(object, "Port"@) == optional_value_port(r.port)) by {
        lemma_service_fields(r);
        lemma_object_with_member(fields, 3);
    }
    assert(member(object, "Address"@) == optional_value_text(r.address)) by {
        lemma_service_fields(r);
        lemma_object_with_member(fields, 4);
    }
    assert(member(object, "EnableTagOverride"@) == optional_value_bool(r.enable_tag_override)) by {
        lemma_service_fields(r);
        lemma_object_with_member(fields, 5);
    }
    assert(member(object, "Check"@) == optional_value_check(r.check)) by {
        lemma_service_fields(r);
        lemma_object_with_member(fields, 6);
    }
    assert(known_only(object, |name: Seq<char>| is_service_field(name))) by {
        lemma_service_fields(r);
        assert forall|name: Seq<char>| #[trigger]
            object.contains_key(name) implies is_service_field(name) by {
            lemma_object_with_names(fields, name);
        }
    }
    lemma_service_registration_reads_back_from_members(object, r);
}

/// A payload with a member under a name that the schema of check registrations
/// does not know is refused as such, whatever else it holds.
pub proof fn lemma_unknown_check_field_is_refused(value: Value, name: Seq<char>)
    requires
        json_shape(value) matches Shape::Object(object) && object.contains_key(name),
        !is_check_field(name),
    ensures
        refuses(check_registration_of(value), DecodeFailure::UnknownField),
{
}

/// A payload with a member under a name that the schema of service
/// registrations does not know is refused as such, whatever else it holds.
pub proof fn lemma_unknown_service_field_is_refused(value: Value, name: Seq<char>)
    requires
        json_shape(value) matches Shape::Object(object) && object.contains_key(name),
        !is_service_field(name),
    ensures
        refuses(service_registration_of(value), DecodeFailure::UnknownField),
{
}

/// Whether `name` is the name of a field of a check registration.
pub fn check_schema_has(name: &str) -> (r: bool)
    ensures
        r == is_check_field(name@),
{
    same_text(name, "ID")
        || same_text(name, "Name")
        || same_text(name, "ServiceID")
        || same_text(name, "Script")
        || same_text(name, "DockerContainerID")
        || same_text(name, "Shell")
        || same_text(name, "Interval")
        || same_text(name, "Timeout")
        || same_text(name, "TTL")
        || same_text(name, "HTTP")
        || same_text(name, "TCP")
        || same_text(name, "Status")
        || same_text(name, "Notes")
        || same_text(name, "TLSSkipVerify")
        || same_text(name, "DeregisterCriticalServiceAfter")
}

/// Whether `name` is the name of a field of a service registration.
pub fn service_schema_has(name: &str) -> (r: bool)
    ensures
        r == is_service_field(name@),
{
    same_text(name, "ID")
        || same_text(name, "Name")
        || same_text(name, "Tags")
        || same_text(name, "Port")
        || same_text(name, "Address")
        || same_text(name, "EnableTagOverride")
        || same_text(name, "Check")
}

/// Reads a member that is a port where it is there and not `null`.
pub fn get_optional_port(members: &Members, name: &str) -> (r: Option<Option<u32>>)
    ensures
        r == optional_port(members@, name@),
{
    match get_optional_natural(members, name) {
        Some(Some(n)) => if n <= 0xFFFF_FFFF {
            Some(Some(n as u32))
        } else {
            None
        },
        Some(None) => Some(None),
        None => None,
    }
}

/// Reads a member that is a check registration where it is there and not `null`.
pub fn get_optional_check(members: &Members, name: &str) -> (r: Result<
    Option<AgentCheckRegistration>,
    DecodeFailure,
>)
    ensures
        match r {
            Ok(check) => gives(optional_check(members@, name@), check.deep_view()),
            Err(e) => refuses(optional_check(members@, name@), e),
        },
{
    match members.find(name) {
        None => Ok(None),
        Some(value) => if is_null(value) {
            Ok(None)
        } else {
            match AgentCheckRegistration::from_json(value) {
                Ok(check) => Ok(Some(check)),
                Err(e) => Err(e),
            }
        },
    }
}

/// Whether every member goes by a name of the check schema.
pub fn only_check_fields(members: &Members) -> (r: bool)
    ensures
        r == known_only(members@, |name: Seq<char>| is_check_field(name)),
{
    let n = members.len();
    let mut i: usize = 0;
    while i < n
        invariant
            i <= n,
            n == members.entries().len(),
            distinct_names(members.entries()),
            forall|j: int| 0 <= j < i ==> is_check_field(#[trigger] members.entries()[j].0@),
        decreases n - i,
    {
        if !check_schema_has(members.name(i)) {
            proof {
                lemma_position(members.entries(), i as int);
                assert(members@.contains_key(members.entries()[i as int].0@));
            }
            return false;
        }
        i += 1;
    }
    proof {
        assert forall|name: Seq<char>| #[trigger]
            members@.contains_key(name) implies is_check_field(name) by {
            let j = position(members.entries(), name);
            assert(is_check_field(members.entries()[j].0@));
        }
    }
    true
}

/// Whether every member goes by a name of the service schema.
pub fn only_service_fields(members: &Members) -> (r: bool)
    ensures
        r == known_only(members@, |name: Seq<char>| is_service_field(name)),
{
    let n = members.len();
    let mut i: usize = 0;
    while i < n
        invariant
            i <= n,
            n == members.entries().len(),
            distinct_names(members.entries()),
            forall|j: int| 0 <= j < i ==> is_service_field(#[trigger] members.entries()[j].0@),
        decreases n - i,
    {
        if !service_schema_has(members.name(i)) {
            proof {
                lemma_position(members.entries(), i as int);
                assert(members@.contains_key(members.entries()[i as int].0@));
            }
            return false;
        }
        i += 1;
    }
    proof {
        assert forall|name: Seq<char>| #[trigger]
            members@.contains_key(name) implies is_service_field(name) by {
            let j = position(members.entries(), name);
            assert(is_service_field(members.entries()[j].0@));
        }
    }
    true
}

/// The value of an optional text field.
fn text_field(text: &Option<String>) -> (value: Option<Value>)
    ensures
        value == optional_value_text(text.deep_view()),
        reads_text(text.deep_view()),
{
    match text {
        Some(text) => Some(make_text(text.as_str())),
        None => None,
    }
}

/// The value of an optional flag.
fn bool_field(flag: Option<bool>) -> (value: Option<Value>)
    ensures
        value == optional_value_bool(flag),
        reads_bool(flag),
{
    match flag {
        Some(flag) => Some(make_bool(flag)),
        None => None,
    }
}

/// The value of an optional list of texts.
fn texts_field(texts: &Option<Vec<String>>) -> (value: Option<Value>)
    ensures
        value == optional_value_texts(texts.deep_view()),
        reads_texts(texts.deep_view()),
{
    match texts {
        Some(texts) => Some(make_texts(texts)),
        None => None,
    }
}

/// The value of an optional port.
fn port_field(port: Option<u32>) -> (value: Option<Value>)
    ensures
        value == optional_value_port(port),
        reads_port(port),
{
    match port {
        Some(port) => Some(make_natural(port as u64)),
        None => None,
    }
}

/// The value of an optional check registration.
fn check_field(check: &Option<AgentCheckRegistration>) -> (value: Option<Value>)
    ensures
        value == optional_value_check(check.deep_view()),
        reads_check(check.deep_view()),
{
    match check {
        Some(check) => Some(check.to_json()),
        None => None,
    }
}

impl AgentCheckRegistration {
    /// The JSON value of the payload: an object with one member for each field
    /// that is set. Reading the value back gives this registration again.
    pub fn to_json(&self) -> (value: Value)
        ensures
            value == check_registration_json(self@),
            gives(check_registration_of(value), self@),
    {
        let ghost fields = check_registration_fields(self@);
        proof {
            lemma_check_fields(self@);
        }
        let payload = Payload::new(Ghost(fields));
        let payload = payload.put("ID", text_field(&self.id));
        let payload = payload.put("Name", Some(make_text(self.name.as_str())));
        let payload = payload.put("ServiceID", text_field(&self.service_id));
        let payload = payload.put("Script", text_field(&self.script));
        let payload = payload.put("DockerContainerID", text_field(&self.docker_container_id));
        let payload = payload.put("Shell", text_field(&self.shell));
        let payload = payload.put("Interval", text_field(&self.interval));
        let payload = payload.put("Timeout", text_field(&self.timeout));
        let payload = payload.put("TTL", text_field(&self.ttl));
        let payload = payload.put("HTTP", text_field(&self.http));
        let payload = payload.put("TCP", text_field(&self.tcp));
        let payload = payload.put("Status", text_field(&self.status));
        let payload = payload.put("Notes", text_field(&self.notes));
        let payload = payload.put("TLSSkipVerify", bool_field(self.tls_skip_verify));
        let payload = payload.put(
            "DeregisterCriticalServiceAfter",
            text_field(&self.deregister_critical_service_after),
        );
        proof {
            lemma_check_registration_reads_back(self@);
        }
        payload.finish()
    }

    /// Reads a registration from a JSON value. The value must be an object that
    /// names fields of the schema only, with the name given as a string and each
    /// other field either left out, `null`, or of its type.
    pub fn from_json(value: &Value) -> (out: Result<AgentCheckRegistration, DecodeFailure>)
        ensures
            match out {
                Ok(r) => gives(check_registration_of(*value), r@),
                Err(e) => refuses(check_registration_of(*value), e),
            },
    {
        let Some(members) = Members::of(value) else {
            return Err(DecodeFailure::Schema);
        };
        if !only_check_fields(&members) {
            return Err(DecodeFailure::UnknownField);
        }
        let Some(id) = get_optional_text(&members, "ID") else {
            return Err(DecodeFailure::Schema);
        };
        let Some(name) = get_text(&members, "Name") else {
            return Err(DecodeFailure::Schema);
        };
        let Some(service_id) = get_optional_text(&members, "ServiceID") else {
            return Err(DecodeFailure::Schema);
        };
        let Some(script) = get_optional_text(&members, "Script") else {
            return Err(DecodeFailure::Schema);
        };
        let Some(docker_container_id) = get_optional_text(&members, "DockerContainerID") else {
            return Err(DecodeFailure::Schema);
        };
        let Some(shell) = get_optional_text(&members, "Shell") else {
            return Err(DecodeFailure::Schema);
        };
        let Some(interval) = get_optional_text(&members, "Interval") else {
            return Err(DecodeFailure::Schema);
        };
        let Some(timeout) = get_optional_text(&members, "Timeout") else {
            return Err(DecodeFailure::Schema);
        };
        let Some(ttl) = get_optional_text(&members, "TTL") else {
            return Err(DecodeFailure::Schema);
        };
        let Some(http) = get_optional_text(&members, "HTTP") else {
            return Err(DecodeFailure::Schema);
        };
        let Some(tcp) = get_optional_text(&members, "TCP") else {
            return Err(DecodeFailure::Schema);
        };
        let Some(status) = get_optional_text(&members, "Status") else {
            return Err(DecodeFailure::Schema);
        };
        let Some(notes) = get_optional_text(&members, "Notes") else {
            return Err(DecodeFailure::Schema);
        };
        let Some(tls_skip_verify) = get_optional_bool(&members, "TLSSkipVerify") else {
            return Err(DecodeFailure::Schema);
        };
        let Some(deregister_critical_service_after) = get_optional_text(
            &members,
            "DeregisterCriticalServiceAfter",
        ) else {
            return Err(DecodeFailure::Schema);
        };
        Ok(
            AgentCheckRegistration {
                id,
                name,
                service_id,
                script,
                docker_container_id,
                shell,
                interval,
                timeout,
                ttl,
                http,
                tcp,
                status,
                notes,
                tls_skip_verify,
                deregister_critical_service_after,
            },
        )
    }
}

impl AgentServiceRegistration {
    /// The JSON value of the payload: an object with one member for each field
    /// that is set. Reading the value back gives this registration again.
    pub fn to_json(&self) -> (value: Value)
        ensures
            value == service_registration_json(self@),
            gives(service_registration_of(value), self@),
    {
        let ghost fields = service_registration_fields(self@);
        proof {
            lemma_service_fields(self@);
        }
        let payload = Payload::new(Ghost(fields));
        let payload = payload.put("ID", text_field(&self.id));
        let payload = payload.put("Name", Some(make_text(self.name.as_str())));
        let payload = payload.put("Tags", texts_field(&self.tags));
        let payload = payload.put("Port", port_field(self.port));
        let payload = payload.put("Address", text_field(&self.address));
        let payload = payload.put("EnableTagOverride", bool_field(self.enable_tag_override));
        let payload = payload.put("Check", check_field(&self.check));
        proof {
            lemma_service_registration_reads_back(self@);
        }
        payload.finish()
    }

    /// Reads a registration from a JSON value. The value must be an object that
    /// names fields of the schema only, with the name given as a string and each
    /// other field either left out, `null`, or of its type.
    pub fn from_json(value: &Value) -> (out: Result<AgentServiceRegistration, DecodeFailure>)
        ensures
            match out {
                Ok(r) => gives(service_registration_of(*value), r@),
                Err(e) => refuses(service_registration_of(*value), e),
            },
    {
        let Some(members) = Members::of(value) else {
            return Err(DecodeFailure::Schema);
        };
        if !only_service_fields(&members) {
            return Err(DecodeFailure::UnknownField);
        }
        let Some(id) = get_optional_text(&members, "ID") else {
            return Err(DecodeFailure::Schema);
        };
        let Some(name) = get_text(&members, "Name") else {
            return Err(DecodeFailure::Schema);
        };
        let Some(tags) = get_optional_texts(&members, "Tags") else {
            return Err(DecodeFailure::Schema);
        };
        let Some(port) = get_optional_port(&members, "Port") else {
            return Err(DecodeFailure::Schema);
        };
        let Some(address) = get_optional_text(&members, "Address") else {
            return Err(DecodeFailure::Schema);
        };
        let Some(enable_tag_override) = get_optional_bool(&members, "EnableTagOverride") else {
            return Err(DecodeFailure::Schema);
        };
        let check = match get_optional_check(&members, "Check") {
            Ok(check) => check,
            Err(e) => {
                return Err(e);
            },
        };
        Ok(
            AgentServiceRegistration {
                id,
                name,
                tags,
                port,
                address,
                enable_tag_override,
                check,
            },
        )
    }
}

} // verus!
