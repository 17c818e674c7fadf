use consul::json::{
    get_bool, get_natural, get_optional_bool, get_optional_natural, get_optional_text,
    get_optional_texts, get_text, get_texts, is_null, make_bool, make_natural, make_text,
    make_texts, read_bool, read_natural, read_text, read_texts, Members,
};
use consul::registration::{
    check_schema_has, get_optional_check, get_optional_port, only_check_fields,
    only_service_fields, service_schema_has,
};
use consul::{
    Agent, AgentCheck, AgentCheckRegistration, AgentService, AgentServiceRegistration,
    DecodeFailure, Error, KVEntry, KeyValue, Response,
};
use serde_json::Value;

fn json(text: &str) -> Value {
    serde_json::from_str(text).unwrap()
}

fn reply(status: u16, body: &str) -> Response {
    Response::new(status, body.as_bytes().to_vec())
}

const CHECK: &str = "{\"Node\":\"n1\",\"CheckID\":\"mem\",\"Name\":\"Memory\",\"Status\":\"passing\",\"Notes\":\"\",\"Output\":\"ok\",\"ServiceID\":\"web1\",\"ServiceName\":\"web\"}";

#[test]
fn check_is_read_field_by_field() {
    let check = AgentCheck::from_json(&json(CHECK)).unwrap();
    assert_eq!(check.node, "n1");
    assert_eq!(check.check_id, "mem");
    assert_eq!(check.name, "Memory");
    assert_eq!(check.status, "passing");
    assert_eq!(check.notes, "");
    assert_eq!(check.output, "ok");
    assert_eq!(check.service_id, "web1");
    assert_eq!(check.service_name, "web");
}

#[test]
fn check_may_hold_more_than_the_record_asks() {
    let text = CHECK.replace("{\"Node\"", "{\"CreateIndex\":12,\"Definition\":{},\"Node\"");
    let check = AgentCheck::from_json(&json(&text)).unwrap();
    assert_eq!(check.check_id, "mem");
}

#[test]
fn check_needs_each_field_as_text() {
    for name in
        ["Node", "CheckID", "Name", "Status", "Notes", "Output", "ServiceID", "ServiceName"]
    {
        let mut value = json(CHECK);
        value.as_object_mut().unwrap().remove(name);
        assert!(AgentCheck::from_json(&value).is_none());
        let mut value = json(CHECK);
        value.as_object_mut().unwrap().insert(name.to_string(), Value::Null);
        assert!(AgentCheck::from_json(&value).is_none());
        let mut value = json(CHECK);
        value.as_object_mut().unwrap().insert(name.to_string(), Value::from(3u64));
        assert!(AgentCheck::from_json(&value).is_none());
    }
    assert!(AgentCheck::from_json(&json("[]")).is_none());
    assert!(AgentCheck::from_json(&json("\"mem\"")).is_none());
    assert!(AgentCheck::from_json(&json("null")).is_none());
}

#[test]
fn checks_reply_lists_each_check_once() {
    let body = format!("{{\"mem\":{},\"cpu\":{}}}", CHECK, CHECK.replace("mem", "cpu"));
    let mut checks = Agent::checks_reply(&reply(200, &body)).unwrap();
    checks.sort_by(|a, b| a.0.cmp(&b.0));
    assert_eq!(checks.len(), 2);
    assert_eq!(checks[0].0, "cpu");
    assert_eq!(checks[0].1.check_id, "cpu");
    assert_eq!(checks[1].0, "mem");
    assert_eq!(checks[1].1.check_id, "mem");
    assert_eq!(Agent::checks_reply(&reply(200, "{}")).unwrap().len(), 0);
}

#[test]
fn checks_reply_refuses_what_is_no_table_of_checks() {
    for body in ["[]", "null", "{\"mem\":{}}", "{\"mem\":null}", "{\"mem\":\"passing\"}"] {
        assert!(matches!(
            Agent::checks_reply(&reply(200, body)),
            Err(Error::Decode(DecodeFailure::Schema))
        ));
    }
    let body = format!("{{\"mem\":{},\"cpu\":{{\"Node\":\"n1\"}}}}", CHECK);
    assert!(matches!(
        Agent::checks_reply(&reply(200, &body)),
        Err(Error::Decode(DecodeFailure::Schema))
    ));
    match Agent::checks_reply(&reply(500, "agent is down")) {
        Err(Error::Consul(text)) => assert_eq!(text, "Internal Server Error: agent is down"),
        other => panic!("expected a refusal, got {:?}", other),
    }
}

const SERVICE: &str = "{\"ID\":\"web1\",\"Service\":\"web\",\"Tags\":[\"a\",\"b\"],\"Port\":8080,\"Address\":\"10.0.0.7\",\"EnableTagOverride\":true}";

#[test]
fn service_is_read_field_by_field() {
    let service = AgentService::from_json(&json(SERVICE)).unwrap();
    assert_eq!(service.id, "web1");
    assert_eq!(service.service, "web");
    assert_eq!(service.tags, vec!["a", "b"]);
    assert_eq!(service.port, 8080);
    assert_eq!(service.address, "10.0.0.7");
    assert!(service.enable_tag_override);
}

#[test]
fn service_port_fits_32_bits() {
    let at_limit = SERVICE.replace("8080", "4294967295");
    assert_eq!(AgentService::from_json(&json(&at_limit)).unwrap().port, 4294967295);
    assert_eq!(AgentService::from_json(&json(&SERVICE.replace("8080", "0"))).unwrap().port, 0);
    for port in ["4294967296", "-1", "80.5", "\"80\"", "null", "18446744073709551616"] {
        let text = SERVICE.replace("8080", port);
        assert!(AgentService::from_json(&json(&text)).is_none());
    }
}

#[test]
fn service_needs_each_field() {
    for name in ["ID", "Service", "Tags", "Port", "Address", "EnableTagOverride"] {
        let mut value = json(SERVICE);
        value.as_object_mut().unwrap().remove(name);
        assert!(AgentService::from_json(&value).is_none());
        let mut value = json(SERVICE);
        value.as_object_mut().unwrap().insert(name.to_string(), Value::Null);
        assert!(AgentService::from_json(&value).is_none());
    }
    let mixed = SERVICE.replace("[\"a\",\"b\"]", "[\"a\",1]");
    assert!(AgentService::from_json(&json(&mixed)).is_none());
    assert!(AgentService::from_json(&json(&SERVICE.replace("true", "\"true\""))).is_none());
    let body = format!("{{\"web1\":{}}}", SERVICE);
    let services = Agent::services_reply(&reply(200, &body)).unwrap();
    assert_eq!(services.len(), 1);
    assert_eq!(services[0].0, "web1");
    assert_eq!(services[0].1.service, "web");
    assert!(matches!(
        Agent::services_reply(&reply(200, "{\"web1\":{}}")),
        Err(Error::Decode(DecodeFailure::Schema))
    ));
}

fn full_check() -> AgentCheckRegistration {
    AgentCheckRegistration {
        id: Some("mem".into()),
        name: "Memory use".into(),
        service_id: Some("web1".into()),
        script: Some("/bin/check_mem".into()),
        docker_container_id: Some("f972c95ebf0e".into()),
        shell: Some("/bin/bash".into()),
        interval: Some("10s".into()),
        timeout: Some("1s".into()),
        ttl: Some("15s".into()),
        http: Some("http://localhost:5000/health".into()),
        tcp: Some("localhost:22".into()),
        status: Some("passing".into()),
        notes: Some("line \"one\"\nline two \u{2713}".into()),
        tls_skip_verify: Some(true),
        deregister_critical_service_after: Some("90m".into()),
    }
}

fn same_check(a: &AgentCheckRegistration, b: &AgentCheckRegistration) -> bool {
    a.id == b.id
        && a.name == b.name
        && a.service_id == b.service_id
        && a.script == b.script
        && a.docker_container_id == b.docker_container_id
        && a.shell == b.shell
        && a.interval == b.interval
        && a.timeout == b.timeout
        && a.ttl == b.ttl
        && a.http == b.http
        && a.tcp == b.tcp
        && a.status == b.status
        && a.notes == b.notes
        && a.tls_skip_verify == b.tls_skip_verify
        && a.deregister_critical_service_after == b.deregister_critical_service_after
}

#[test]
fn payload_holds_the_fields_that_are_set() {
    let minimal = AgentCheckRegistration { name: "c".into(), ..Default::default() };
    assert_eq!(serde_json::to_string(&minimal.to_json()).unwrap(), "{\"Name\":\"c\"}");
    let empty = AgentCheckRegistration::default();
    assert_eq!(serde_json::to_string(&empty.to_json()).unwrap(), "{\"Name\":\"\"}");
    let value = full_check().to_json();
    let object = value.as_object().unwrap();
    assert_eq!(object.len(), 15);
    assert_eq!(object["ID"], "mem");
    assert_eq!(object["Name"], "Memory use");
    assert_eq!(object["ServiceID"], "web1");
    assert_eq!(object["Script"], "/bin/check_mem");
    assert_eq!(object["DockerContainerID"], "f972c95ebf0e");
    assert_eq!(object["Shell"], "/bin/bash");
    assert_eq!(object["Interval"], "10s");
    assert_eq!(object["Timeout"], "1s");
    assert_eq!(object["TTL"], "15s");
    assert_eq!(object["HTTP"], "http://localhost:5000/health");
    assert_eq!(object["TCP"], "localhost:22");
    assert_eq!(object["Status"], "passing");
    assert_eq!(object["Notes"], "line \"one\"\nline two \u{2713}");
    assert_eq!(object["TLSSkipVerify"], true);
    assert_eq!(object["DeregisterCriticalServiceAfter"], "90m");
}

#[test]
fn check_registration_survives_the_round_trip() {
    let mut samples = vec![
        full_check(),
        AgentCheckRegistration::default(),
        AgentCheckRegistration { name: "c".into(), ttl: Some("15s".into()), ..Default::default() },
        AgentCheckRegistration { tls_skip_verify: Some(false), ..full_check() },
        AgentCheckRegistration { id: Some("".into()), notes: None, ..full_check() },
    ];
    for i in 0..15 {
        let mut one = AgentCheckRegistration { name: format!("only {}", i), ..Default::default() };
        match i {
            0 => one.id = Some("x".into()),
            2 => one.service_id = Some("x".into()),
            3 => one.script = Some("x".into()),
            4 => one.docker_container_id = Some("x".into()),
            5 => one.shell = Some("x".into()),
            6 => one.interval = Some("x".into()),
            7 => one.timeout = Some("x".into()),
            8 => one.ttl = Some("x".into()),
            9 => one.http = Some("x".into()),
            10 => one.tcp = Some("x".into()),
            11 => one.status = Some("x".into()),
            12 => one.notes = Some("x".into()),
            13 => one.tls_skip_verify = Some(true),
            14 => one.deregister_critical_service_after = Some("x".into()),
            _ => {}
        }
        samples.push(one);
    }
    for sample in samples {
        let value = sample.to_json();
        let back = AgentCheckRegistration::from_json(&value).unwrap();
        assert!(same_check(&sample, &back));
        let text = serde_json::to_string(&value).unwrap();
        let again = AgentCheckRegistration::from_json(&json(&text)).unwrap();
        assert!(same_check(&sample, &again));
    }
}

#[test]
fn registration_with_an_unknown_field_is_refused() {
    let cases = [
        "{\"Name\":\"c\",\"TTl\":\"15s\"}",
        "{\"Name\":\"c\",\"name\":\"d\"}",
        "{\"Name\":\"c\",\"Args\":[]}",
        "{\"Name\":\"c\",\"\":null}",
        "{\"Nam\":\"c\"}",
        "{\"Name\":7,\"Extra\":1}",
        "{\"Name\":\"c\",\"Tags\":[\"a\"]}",
    ];
    for case in cases {
        assert_eq!(
            AgentCheckRegistration::from_json(&json(case)).err(),
            Some(DecodeFailure::UnknownField)
        );
    }
    let cases = [
        "{\"Name\":\"s\",\"Tag\":[\"a\"]}",
        "{\"Name\":\"s\",\"TTL\":\"15s\"}",
        "{\"Name\":\"s\",\"Checks\":[]}",
        "{\"Name\":\"s\",\"Check\":{\"Name\":\"c\",\"Intervall\":\"1s\"}}",
    ];
    for case in cases {
        assert_eq!(
            AgentServiceRegistration::from_json(&json(case)).err(),
            Some(DecodeFailure::UnknownField)
        );
    }
}

#[test]
fn registration_of_another_shape_is_refused() {
    let cases = [
        "{}",
        "[]",
        "null",
        "\"c\"",
        "{\"Name\":null}",
        "{\"Name\":1}",
        "{\"Name\":\"c\",\"TTL\":15}",
        "{\"Name\":\"c\",\"TLSSkipVerify\":\"yes\"}",
        "{\"Name\":\"c\",\"ID\":[\"a\"]}",
    ];
    for case in cases {
        assert_eq!(
            AgentCheckRegistration::from_json(&json(case)).err(),
            Some(DecodeFailure::Schema)
        );
    }
    let cases = [
        "{}",
        "{\"Name\":\"s\",\"Tags\":\"a\"}",
        "{\"Name\":\"s\",\"Tags\":[1]}",
        "{\"Name\":\"s\",\"Port\":-1}",
        "{\"Name\":\"s\",\"Port\":4294967296}",
        "{\"Name\":\"s\",\"Port\":\"80\"}",
        "{\"Name\":\"s\",\"EnableTagOverride\":0}",
        "{\"Name\":\"s\",\"Check\":[]}",
        "{\"Name\":\"s\",\"Check\":{}}",
        "{\"Name\":\"s\",\"Check\":{\"TTL\":\"1s\"}}",
    ];
    for case in cases {
        assert_eq!(
            AgentServiceRegistration::from_json(&json(case)).err(),
            Some(DecodeFailure::Schema)
        );
    }
}

#[test]
fn field_left_out_and_null_field_are_both_unset() {
    let a = AgentCheckRegistration::from_json(&json("{\"Name\":\"c\"}")).unwrap();
    let b = AgentCheckRegistration::from_json(&json(
        "{\"Name\":\"c\",\"ID\":null,\"TTL\":null,\"TLSSkipVerify\":null}",
    ))
    .unwrap();
    assert!(same_check(&a, &b));
    assert!(same_check(&a, &AgentCheckRegistration { name: "c".into(), ..Default::default() }));
    let s = AgentServiceRegistration::from_json(&json(
        "{\"Name\":\"s\",\"Tags\":null,\"Port\":null,\"Check\":null}",
    ))
    .unwrap();
    assert_eq!(s.name, "s");
    assert_eq!(s.tags, None);
    assert_eq!(s.port, None);
    assert!(s.check.is_none());
    assert_eq!(s.id, None);
    assert_eq!(s.address, None);
    assert_eq!(s.enable_tag_override, None);
}

#[test]
fn service_registration_survives_the_round_trip() {
    let sample = AgentServiceRegistration {
        id: Some("web1".into()),
        name: "web".into(),
        tags: Some(vec!["primary".into(), "".into(), "v1.2".into()]),
        port: Some(4294967295),
        address: Some("10.0.0.7".into()),
        enable_tag_override: Some(false),
        check: Some(full_check()),
    };
    let value = sample.to_json();
    assert_eq!(value.as_object().unwrap().len(), 7);
    assert_eq!(value["Port"], 4294967295u64);
    assert_eq!(value["Tags"][2], "v1.2");
    assert_eq!(value["Check"]["TTL"], "15s");
    let back = AgentServiceRegistration::from_json(&value).unwrap();
    assert_eq!(back.id, sample.id);
    assert_eq!(back.name, sample.name);
    assert_eq!(back.tags, sample.tags);
    assert_eq!(back.port, sample.port);
    assert_eq!(back.address, sample.address);
    assert_eq!(back.enable_tag_override, sample.enable_tag_override);
    assert!(same_check(&back.check.unwrap(), &full_check()));

    let bare = AgentServiceRegistration { name: "s".into(), ..Default::default() };
    assert_eq!(serde_json::to_string(&bare.to_json()).unwrap(), "{\"Name\":\"s\"}");
    let back = AgentServiceRegistration::from_json(&bare.to_json()).unwrap();
    assert_eq!(back.name, "s");
    assert!(back.check.is_none() && back.tags.is_none() && back.port.is_none());
    let empty_tags =
        AgentServiceRegistration { name: "s".into(), tags: Some(vec![]), ..Default::default() };
    assert_eq!(
        serde_json::to_string(&empty_tags.to_json()).unwrap(),
        "{\"Name\":\"s\",\"Tags\":[]}"
    );
    assert_eq!(
        AgentServiceRegistration::from_json(&empty_tags.to_json()).unwrap().tags,
        Some(vec![])
    );
}

#[test]
fn definition_count_tells_one_from_many() {
    assert!(AgentCheckRegistration::default().has_single_definition());
    let ttl =
        AgentCheckRegistration { name: "c".into(), ttl: Some("15s".into()), ..Default::default() };
    assert!(ttl.has_single_definition());
    let two = AgentCheckRegistration { interval: Some("1s".into()), ..ttl };
    assert!(!two.has_single_definition());
    assert!(!full_check().has_single_definition());
    let other = AgentCheckRegistration {
        name: "c".into(),
        id: Some("i".into()),
        status: Some("passing".into()),
        notes: Some("n".into()),
        tls_skip_verify: Some(true),
        tcp: Some("localhost:22".into()),
        ..Default::default()
    };
    assert!(other.has_single_definition());
}

const ENTRY: &str = "{\"CreateIndex\":100,\"ModifyIndex\":200,\"LockIndex\":3,\"Key\":\"app/db\",\"Flags\":42,\"Value\":\"aGVsbG8gd29ybGQ=\",\"Session\":\"adf4238a-882b-9ddc-4a9d-5b6758e4159e\"}";

#[test]
fn entry_is_read_with_its_value_decoded() {
    let entry = KVEntry::from_json(&json(ENTRY)).unwrap();
    assert_eq!(entry.create_index, 100);
    assert_eq!(entry.modify_index, 200);
    assert_eq!(entry.lock_index, 3);
    assert_eq!(entry.key, "app/db");
    assert_eq!(entry.flags, 42);
    assert_eq!(entry.value, b"hello world");
    assert_eq!(entry.session, Some("adf4238a-882b-9ddc-4a9d-5b6758e4159e".to_string()));
    let no_session = ENTRY.replace(",\"Session\":\"adf4238a-882b-9ddc-4a9d-5b6758e4159e\"", "");
    assert_eq!(KVEntry::from_json(&json(&no_session)).unwrap().session, None);
    let empty = ENTRY.replace("aGVsbG8gd29ybGQ=", "");
    assert_eq!(KVEntry::from_json(&json(&empty)).unwrap().value, Vec::<u8>::new());
    let binary = ENTRY.replace("aGVsbG8gd29ybGQ=", "AP/+gA==");
    assert_eq!(KVEntry::from_json(&json(&binary)).unwrap().value, vec![0, 255, 254, 128]);
    let large = ENTRY.replace("100", "18446744073709551615");
    assert_eq!(KVEntry::from_json(&json(&large)).unwrap().create_index, u64::MAX);
}

#[test]
fn entry_with_a_value_that_is_no_base64_is_refused() {
    for value in ["a", "aGVs bG8=", "aGVsbG8_", "****", "aGVsbG8\\n"] {
        let text = ENTRY.replace("aGVsbG8gd29ybGQ=", value);
        assert_eq!(KVEntry::from_json(&json(&text)).err(), Some(DecodeFailure::Base64));
        let body = format!("[{}]", text);
        assert!(matches!(
            KeyValue::get_bytes_reply(&reply(200, &body)),
            Err(Error::Decode(DecodeFailure::Base64))
        ));
    }
}

#[test]
fn entry_of_another_shape_is_refused() {
    for name in ["CreateIndex", "ModifyIndex", "LockIndex", "Key", "Flags", "Value"] {
        let mut value = json(ENTRY);
        value.as_object_mut().unwrap().remove(name);
        assert_eq!(KVEntry::from_json(&value).err(), Some(DecodeFailure::Schema));
        let mut value = json(ENTRY);
        value.as_object_mut().unwrap().insert(name.to_string(), Value::Null);
        assert_eq!(KVEntry::from_json(&value).err(), Some(DecodeFailure::Schema));
    }
    let text = ENTRY.replace("\"adf4238a-882b-9ddc-4a9d-5b6758e4159e\"", "7");
    assert_eq!(KVEntry::from_json(&json(&text)).err(), Some(DecodeFailure::Schema));
    for index in ["-100", "1.5", "\"100\""] {
        let text = ENTRY.replace("100", index);
        assert_eq!(KVEntry::from_json(&json(&text)).err(), Some(DecodeFailure::Schema));
    }
    assert_eq!(KVEntry::from_json(&json("[]")).err(), Some(DecodeFailure::Schema));
}

#[test]
fn read_takes_a_list_of_one_entry() {
    let one = format!("[{}]", ENTRY);
    let entry = KeyValue::get_entry_reply(&reply(200, &one)).unwrap().unwrap();
    assert_eq!(entry.key, "app/db");
    assert_eq!(KeyValue::get_reply(&reply(200, &one)).unwrap(), Some("hello world".to_string()));
    assert_eq!(
        KeyValue::get_bytes_reply(&reply(200, &one)).unwrap(),
        Some(b"hello world".to_vec())
    );
    assert_eq!(KVEntry::single_from_json(&json(&one)).unwrap().flags, 42);
    let two = format!("[{},{}]", ENTRY, ENTRY);
    for body in ["[]", two.as_str(), ENTRY, "null", "[null]", "[[]]"] {
        assert!(matches!(
            KeyValue::get_entry_reply(&reply(200, body)),
            Err(Error::Decode(DecodeFailure::Schema))
        ));
        assert!(matches!(
            KeyValue::get_reply(&reply(200, body)),
            Err(Error::Decode(DecodeFailure::Schema))
        ));
    }
}

#[test]
fn value_that_is_no_text_is_a_text_error_for_get() {
    let body = format!("[{}]", ENTRY.replace("aGVsbG8gd29ybGQ=", "AP/+gA=="));
    assert!(matches!(KeyValue::get_reply(&reply(200, &body)), Err(Error::Utf8(_))));
    assert_eq!(
        KeyValue::get_bytes_reply(&reply(200, &body)).unwrap(),
        Some(vec![0, 255, 254, 128])
    );
}

#[test]
fn values_are_read_by_their_type() {
    assert_eq!(read_text(&json("\"a\"")), Some("a".to_string()));
    assert_eq!(read_text(&json("1")), None);
    assert_eq!(read_natural(&json("18446744073709551615")), Some(u64::MAX));
    assert_eq!(read_natural(&json("0")), Some(0));
    assert_eq!(read_natural(&json("-1")), None);
    assert_eq!(read_natural(&json("1.0")), None);
    assert_eq!(read_natural(&json("\"1\"")), None);
    assert_eq!(read_bool(&json("true")), Some(true));
    assert_eq!(read_bool(&json("false")), Some(false));
    assert_eq!(read_bool(&json("0")), None);
    assert_eq!(read_texts(&json("[\"a\",\"\"]")), Some(vec!["a".to_string(), "".to_string()]));
    assert_eq!(read_texts(&json("[]")), Some(vec![]));
    assert_eq!(read_texts(&json("[\"a\",2]")), None);
    assert_eq!(read_texts(&json("{}")), None);
    assert!(is_null(&json("null")));
    assert!(!is_null(&json("0")));
    assert!(!is_null(&json("\"\"")));
}

#[test]
fn values_are_made_of_what_they_hold() {
    assert_eq!(make_text("a \"b\""), Value::String("a \"b\"".to_string()));
    assert_eq!(make_bool(true), Value::Bool(true));
    assert_eq!(make_natural(7), json("7"));
    assert_eq!(make_natural(u64::MAX), json("18446744073709551615"));
    assert_eq!(make_texts(&vec!["x".to_string(), "y".to_string()]), json("[\"x\",\"y\"]"));
    assert_eq!(make_texts(&vec![]), json("[]"));
}

fn members_of(text: &str) -> Members {
    Members::of(&json(text)).unwrap()
}

fn members() -> Members {
    members_of(
        "{\"Name\":\"web\",\"Port\":8080,\"Tags\":[\"a\",\"b\"],\"EnableTagOverride\":true,\"Address\":null,\"Check\":{\"Name\":\"c\",\"TTL\":\"15s\"}}",
    )
}

#[test]
fn member_is_found_by_its_name() {
    let members = members();
    assert_eq!(members.find("Port"), Some(&json("8080")));
    assert_eq!(members.find("Name"), Some(&json("\"web\"")));
    assert_eq!(members.find("Address"), Some(&Value::Null));
    assert_eq!(members.find("port"), None);
    assert_eq!(members.find(""), None);
    assert_eq!(Members::new().find("Name"), None);
    assert_eq!(Members::new().len(), 0);
}

#[test]
fn members_are_those_of_the_object() {
    let members = members();
    assert_eq!(members.len(), 6);
    let mut names: Vec<String> = (0..members.len()).map(|i| members.name(i).to_string()).collect();
    names.sort();
    assert_eq!(names, vec!["Address", "Check", "EnableTagOverride", "Name", "Port", "Tags"]);
    for i in 0..members.len() {
        assert_eq!(members.find(members.name(i)), Some(members.value(i)));
    }
    assert!(Members::of(&json("[]")).is_none());
    assert!(Members::of(&json("null")).is_none());
    assert!(Members::of(&json("\"{}\"")).is_none());
    assert_eq!(members_of("{}").len(), 0);
    let repeated = members_of("{\"a\":1,\"a\":2}");
    assert_eq!(repeated.len(), 1);
    assert_eq!(repeated.find("a"), Some(&json("2")));
}

#[test]
fn required_member_must_be_there_and_of_its_type() {
    let members = members();
    assert_eq!(get_text(&members, "Name"), Some("web".to_string()));
    assert_eq!(get_text(&members, "Port"), None);
    assert_eq!(get_text(&members, "Address"), None);
    assert_eq!(get_text(&members, "ID"), None);
    assert_eq!(get_natural(&members, "Port"), Some(8080));
    assert_eq!(get_natural(&members, "Name"), None);
    assert_eq!(get_natural(&members, "ID"), None);
    assert_eq!(get_bool(&members, "EnableTagOverride"), Some(true));
    assert_eq!(get_bool(&members, "Port"), None);
    assert_eq!(get_texts(&members, "Tags"), Some(vec!["a".to_string(), "b".to_string()]));
    assert_eq!(get_texts(&members, "Name"), None);
}

#[test]
fn optional_member_may_be_left_out_or_null() {
    let members = members();
    assert_eq!(get_optional_text(&members, "Name"), Some(Some("web".to_string())));
    assert_eq!(get_optional_text(&members, "Address"), Some(None));
    assert_eq!(get_optional_text(&members, "ID"), Some(None));
    assert_eq!(get_optional_text(&members, "Port"), None);
    assert_eq!(get_optional_natural(&members, "Port"), Some(Some(8080)));
    assert_eq!(get_optional_natural(&members, "Address"), Some(None));
    assert_eq!(get_optional_natural(&members, "Name"), None);
    assert_eq!(get_optional_bool(&members, "EnableTagOverride"), Some(Some(true)));
    assert_eq!(get_optional_bool(&members, "ID"), Some(None));
    assert_eq!(get_optional_bool(&members, "Tags"), None);
    assert_eq!(
        get_optional_texts(&members, "Tags"),
        Some(Some(vec!["a".to_string(), "b".to_string()]))
    );
    assert_eq!(get_optional_texts(&members, "Address"), Some(None));
    assert_eq!(get_optional_texts(&members, "Port"), None);
    assert_eq!(get_optional_port(&members, "Port"), Some(Some(8080)));
    assert_eq!(get_optional_port(&members, "ID"), Some(None));
    assert_eq!(get_optional_port(&members, "Name"), None);
    let large = members_of("{\"Port\":4294967296}");
    assert_eq!(get_optional_port(&large, "Port"), None);
    let check = get_optional_check(&members, "Check").unwrap().unwrap();
    assert_eq!(check.name, "c");
    assert_eq!(check.ttl, Some("15s".to_string()));
    assert!(get_optional_check(&members, "Address").unwrap().is_none());
    assert!(get_optional_check(&members, "ID").unwrap().is_none());
    assert_eq!(get_optional_check(&members, "Port").err(), Some(DecodeFailure::Schema));
}

#[test]
fn schema_knows_its_field_names() {
    let check = [
        "ID",
        "Name",
        "ServiceID",
        "Script",
        "DockerContainerID",
        "Shell",
        "Interval",
        "Timeout",
        "TTL",
        "HTTP",
        "TCP",
        "Status",
        "Notes",
        "TLSSkipVerify",
        "DeregisterCriticalServiceAfter",
    ];
    for name in check {
        assert!(check_schema_has(name));
    }
    for name in ["", "id", "Ttl", "Tags", "Port", "Check", "Name ", "DeregisterCriticalServiceAfte"] {
        assert!(!check_schema_has(name));
    }
    for name in ["ID", "Name", "Tags", "Port", "Address", "EnableTagOverride", "Check"] {
        assert!(service_schema_has(name));
    }
    for name in ["", "TTL", "Checks", "tags", "Service"] {
        assert!(!service_schema_has(name));
    }
    assert!(only_service_fields(&members()));
    assert!(!only_check_fields(&members()));
    assert!(only_check_fields(&Members::new()));
    assert!(only_check_fields(&members_of("{\"TTL\":null}")));
    assert!(!only_check_fields(&members_of("{\"TTL\":null,\"Ttl\":null}")));
}
