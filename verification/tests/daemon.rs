use std::collections::{BTreeMap, HashMap};

use consul::{
    Agent, AgentCheck, AgentCheckRegistration, AgentService, AgentServiceRegistration, Consul,
    Error, KeyValue, Method, Request, Response,
};
use serde_json::Value;

/// What the stand-in daemon keeps of a check.
struct CheckRecord {
    name: String,
    status: String,
    notes: String,
    output: String,
    service_id: String,
}

/// What the stand-in daemon keeps of a service.
struct ServiceRecord {
    name: String,
    tags: Vec<String>,
    port: u64,
    address: String,
    enable_tag_override: bool,
}

/// A stand-in for the daemon: it answers requests from memory.
struct Daemon {
    checks: BTreeMap<String, CheckRecord>,
    services: BTreeMap<String, ServiceRecord>,
    store: BTreeMap<String, Vec<u8>>,
    index: u64,
}

fn text(value: &str) -> Value {
    Value::String(value.to_string())
}

fn field(object: &Value, name: &str) -> Option<String> {
    object.get(name).and_then(|v| v.as_str()).map(|s| s.to_string())
}

fn ok(body: &str) -> Response {
    Response::new(200, body.as_bytes().to_vec())
}

fn not_found() -> Response {
    Response::new(404, Vec::new())
}

impl Daemon {
    fn new() -> Daemon {
        Daemon {
            checks: BTreeMap::new(),
            services: BTreeMap::new(),
            store: BTreeMap::new(),
            index: 10,
        }
    }

    fn send(&mut self, request: Request) -> Response {
        let url = hyper::Url::parse(&request.url).unwrap();
        assert_eq!(url.scheme(), "http");
        assert_eq!(url.host_str(), Some("127.0.0.1"));
        assert_eq!(url.port(), Some(8500));
        let segments: Vec<String> = url
            .path_segments()
            .unwrap()
            .map(|s| {
                let bytes = url::percent_encoding::percent_decode(s.as_bytes());
                bytes.decode_utf8().unwrap().to_string()
            })
            .collect();
        assert_eq!(segments[0], "v1");
        let names: Vec<&str> = segments.iter().map(|s| s.as_str()).collect();
        match (request.method, &names[1..]) {
            (Method::Get, ["agent", "checks"]) => self.list_checks(),
            (Method::Put, ["agent", "check", "register"]) => self.register_check(&request),
            (Method::Get, ["agent", "check", "deregister", id]) => {
                match self.checks.remove(*id) {
                    Some(_) => ok(""),
                    None => Response::new(500, b"Unknown check".to_vec()),
                }
            }
            (Method::Get, ["agent", "check", transition, id]) => {
                let status = match *transition {
                    "pass" => "passing",
                    "warn" => "warning",
                    "fail" => "critical",
                    _ => return Response::new(400, b"bad transition".to_vec()),
                };
                let note = url.query_pairs().find(|(k, _)| k == "note").map(|(_, v)| v.to_string());
                match self.checks.get_mut(*id) {
                    Some(check) => {
                        check.status = status.to_string();
                        check.output = note.unwrap_or_default();
                        ok("")
                    }
                    None => {
                        let body = format!("CheckID \"{}\" does not have associated TTL", id);
                        Response::new(500, body.into_bytes())
                    }
                }
            }
            (Method::Get, ["agent", "services"]) => self.list_services(),
            (Method::Put, ["agent", "service", "register"]) => self.register_service(&request),
            (Method::Get, ["agent", "service", "deregister", id]) => {
                self.services.remove(*id);
                self.checks.remove(&format!("service:{}", id));
                ok("")
            }
            (Method::Get, ["agent", "self"]) => {
                let mut config = serde_json::Map::new();
                config.insert("Datacenter".to_string(), text("dc1"));
                config.insert("Version".to_string(), text("0.7.5"));
                let mut reply = serde_json::Map::new();
                reply.insert("Config".to_string(), Value::Object(config));
                ok(&serde_json::to_string(&Value::Object(reply)).unwrap())
            }
            (Method::Get, ["kv", ..]) => self.read(&names[2..].join("/"), url.query()),
            (Method::Put, ["kv", ..]) => {
                self.index += 1;
                self.store.insert(names[2..].join("/"), request.body.unwrap_or_default());
                ok("true\n")
            }
            (Method::Delete, ["kv", ..]) => {
                let key = names[2..].join("/");
                if url.query() == Some("recurse") {
                    self.store.retain(|k, _| !k.starts_with(&key));
                } else {
                    self.store.remove(&key);
                }
                ok("true\n")
            }
            _ => Response::new(405, b"no such endpoint".to_vec()),
        }
    }

    fn register_check(&mut self, request: &Request) -> Response {
        assert!(request.json);
        let body = request.body.clone().unwrap();
        let payload: Value = serde_json::from_slice(&body).unwrap();
        let name = match field(&payload, "Name") {
            Some(name) if !name.is_empty() => name,
            _ => return Response::new(400, b"Missing check name".to_vec()),
        };
        let id = field(&payload, "ID").unwrap_or_else(|| name.clone());
        let record = CheckRecord {
            name,
            status: field(&payload, "Status").unwrap_or_else(|| "critical".to_string()),
            notes: field(&payload, "Notes").unwrap_or_default(),
            output: String::new(),
            service_id: field(&payload, "ServiceID").unwrap_or_default(),
        };
        self.checks.insert(id, record);
        ok("")
    }

    fn register_service(&mut self, request: &Request) -> Response {
        assert!(request.json);
        let body = request.body.clone().unwrap();
        let payload: Value = serde_json::from_slice(&body).unwrap();
        let name = match field(&payload, "Name") {
            Some(name) if !name.is_empty() => name,
            _ => return Response::new(400, b"Missing service name".to_vec()),
        };
        let id = field(&payload, "ID").unwrap_or_else(|| name.clone());
        let tags = match payload.get("Tags").and_then(|t| t.as_array()) {
            Some(tags) => tags.iter().map(|t| t.as_str().unwrap().to_string()).collect(),
            None => Vec::new(),
        };
        if let Some(check) = payload.get("Check") {
            let record = CheckRecord {
                name: format!("Service '{}' check", name),
                status: field(check, "Status").unwrap_or_else(|| "critical".to_string()),
                notes: field(check, "Notes").unwrap_or_default(),
                output: String::new(),
                service_id: id.clone(),
            };
            self.checks.insert(format!("service:{}", id), record);
        }
        let record = ServiceRecord {
            name,
            tags,
            port: payload.get("Port").and_then(|p| p.as_u64()).unwrap_or(0),
            address: field(&payload, "Address").unwrap_or_default(),
            enable_tag_override: payload
                .get("EnableTagOverride")
                .and_then(|b| b.as_bool())
                .unwrap_or(false),
        };
        self.services.insert(id, record);
        ok("")
    }

    fn list_checks(&self) -> Response {
        let mut reply = serde_json::Map::new();
        for (id, check) in &self.checks {
            let service_name = match self.services.get(&check.service_id) {
                Some(service) => service.name.clone(),
                None => String::new(),
            };
            let mut entry = serde_json::Map::new();
            entry.insert("Node".to_string(), text("node1"));
            entry.insert("CheckID".to_string(), text(id));
            entry.insert("Name".to_string(), text(&check.name));
            entry.insert("Status".to_string(), text(&check.status));
            entry.insert("Notes".to_string(), text(&check.notes));
            entry.insert("Output".to_string(), text(&check.output));
            entry.insert("ServiceID".to_string(), text(&check.service_id));
            entry.insert("ServiceName".to_string(), text(&service_name));
            reply.insert(id.clone(), Value::Object(entry));
        }
        ok(&serde_json::to_string(&Value::Object(reply)).unwrap())
    }

    fn list_services(&self) -> Response {
        let mut reply = serde_json::Map::new();
        for (id, service) in &self.services {
            let mut entry = serde_json::Map::new();
            entry.insert("ID".to_string(), text(id));
            entry.insert("Service".to_string(), text(&service.name));
            entry.insert(
                "Tags".to_string(),
                Value::Array(service.tags.iter().map(|t| text(t)).collect()),
            );
            entry.insert("Port".to_string(), Value::from(service.port));
            entry.insert("Address".to_string(), text(&service.address));
            entry.insert("EnableTagOverride".to_string(), Value::Bool(service.enable_tag_override));
            reply.insert(id.clone(), Value::Object(entry));
        }
        ok(&serde_json::to_string(&Value::Object(reply)).unwrap())
    }

    fn read(&self, key: &str, query: Option<&str>) -> Response {
        if query == Some("keys") {
            let keys: Vec<Value> =
                self.store.keys().filter(|k| k.starts_with(key)).map(|k| text(k)).collect();
            if keys.is_empty() {
                return not_found();
            }
            return ok(&serde_json::to_string(&Value::Array(keys)).unwrap());
        }
        match self.store.get(key) {
            None => not_found(),
            Some(value) => {
                let mut entry = serde_json::Map::new();
                entry.insert("CreateIndex".to_string(), Value::from(self.index));
                entry.insert("ModifyIndex".to_string(), Value::from(self.index));
                entry.insert("LockIndex".to_string(), Value::from(0u64));
                entry.insert("Key".to_string(), text(key));
                entry.insert("Flags".to_string(), Value::from(0u64));
                entry.insert("Value".to_string(), text(&base64::encode(value)));
                ok(&serde_json::to_string(&Value::Array(vec![Value::Object(entry)])).unwrap())
            }
        }
    }

    fn checks_now(&mut self, consul: &Consul) -> consul::Result<HashMap<String, AgentCheck>> {
        let reply = self.send(consul.agent().checks()?);
        Ok(Agent::checks_reply(&reply)?.into_iter().collect())
    }

    fn services_now(&mut self, consul: &Consul) -> consul::Result<HashMap<String, AgentService>> {
        let reply = self.send(consul.agent().services()?);
        Ok(Agent::services_reply(&reply)?.into_iter().collect())
    }

    fn get(&mut self, consul: &Consul, key: &str) -> consul::Result<Option<String>> {
        let reply = self.send(consul.kv().get(key)?);
        KeyValue::get_reply(&reply)
    }

    fn get_bytes(&mut self, consul: &Consul, key: &str) -> consul::Result<Option<Vec<u8>>> {
        let reply = self.send(consul.kv().get_bytes(key)?);
        KeyValue::get_bytes_reply(&reply)
    }

    fn keys(&mut self, consul: &Consul, prefix: &str) -> consul::Result<Vec<String>> {
        let reply = self.send(consul.kv().keys(prefix)?);
        KeyValue::keys_reply(&reply)
    }

    fn insert(&mut self, consul: &Consul, key: &str, value: &str) -> consul::Result<bool> {
        self.send(consul.kv().insert(key, value)?).flag()
    }

    fn contains_key(&mut self, consul: &Consul, key: &str) -> consul::Result<bool> {
        let reply = self.send(consul.kv().contains_key(key)?);
        KeyValue::contains_key_reply(&reply)
    }
}

#[test]
fn checks() {
    let consul = Consul::default();
    let mut daemon = Daemon::new();

    assert!(daemon
        .send(
            consul
                .agent()
                .register_check(&AgentCheckRegistration {
                    name: "test_check".into(),
                    ttl: Some("15s".into()),
                    status: Some("critical".into()),
                    ..Default::default()
                })
                .unwrap()
        )
        .done()
        .is_ok());
    assert!(daemon.checks_now(&consul).unwrap().contains_key("test_check"));

    assert!(daemon.send(consul.agent().pass_check("test_check", None).unwrap()).done().is_ok());
    assert!(daemon.checks_now(&consul).unwrap()["test_check"].status.as_str() == "passing");

    assert!(daemon.send(consul.agent().warn_check("test_check", None).unwrap()).done().is_ok());
    assert!(daemon.checks_now(&consul).unwrap()["test_check"].status.as_str() == "warning");

    assert!(daemon.send(consul.agent().fail_check("test_check", None).unwrap()).done().is_ok());
    assert!(daemon.checks_now(&consul).unwrap()["test_check"].status.as_str() == "critical");

    assert!(daemon.send(consul.agent().deregister_check("test_check").unwrap()).done().is_ok());
    assert!(daemon.checks_now(&consul).unwrap().contains_key("test_check") == false);
}

#[test]
fn services() {
    let consul = Consul::default();
    let mut daemon = Daemon::new();

    assert!(daemon
        .send(
            consul
                .agent()
                .register_service(&AgentServiceRegistration {
                    name: "test_service".into(),
                    tags: Some(vec!["testsrv".into()]),
                    ..Default::default()
                })
                .unwrap()
        )
        .done()
        .is_ok());

    let services = daemon.services_now(&consul).ok().unwrap();
    assert!(services.contains_key("test_service"));
    assert!(services["test_service"].tags == vec!["testsrv".to_string()]);

    assert!(daemon
        .send(consul.agent().deregister_service("test_service").unwrap())
        .done()
        .is_ok());
    assert!(daemon.services_now(&consul).ok().unwrap().contains_key("test_service") == false);
}

#[test]
fn _self() {
    let consul = Consul::default();
    let mut daemon = Daemon::new();

    let conf = daemon.send(consul.agent().self_j().unwrap()).json();
    assert!(conf.is_ok());
    assert!(conf.unwrap().as_object().unwrap().contains_key("Config"));
}

#[test]
fn base_ops() {
    let consul = Consul::default();
    let mut daemon = Daemon::new();

    assert!(daemon.insert(&consul, "test/key0", "hello world").unwrap());
    assert!(daemon.insert(&consul, "test/key1", "my • test • value").unwrap());
    assert!(daemon.insert(&consul, "test/key2/val", "level3 val").unwrap());

    assert!(daemon.contains_key(&consul, "test/key0").unwrap());
    assert!(!daemon.contains_key(&consul, "test/none").unwrap());

    assert_eq!(daemon.get(&consul, "test/key0").unwrap(), Some("hello world".to_string()));
    assert_eq!(daemon.get(&consul, "test/none").unwrap(), None);

    assert_eq!(
        daemon.keys(&consul, "test/").unwrap(),
        vec!["test/key0".to_string(), "test/key1".to_string(), "test/key2/val".to_string()]
    );

    assert!(daemon.send(consul.kv().remove("test/key0").unwrap()).done().is_ok());
    assert_eq!(daemon.get(&consul, "test/key0").unwrap(), None);

    assert!(daemon.send(consul.kv().remove_tree("test/").unwrap()).done().is_ok());
    assert!(daemon.keys(&consul, "test/").is_err());
}

#[test]
fn registered_check_reads_back_with_its_fields() {
    let consul = Consul::default();
    let mut daemon = Daemon::new();
    let registration = AgentCheckRegistration {
        id: Some("web-alive".into()),
        name: "Web is alive".into(),
        ttl: Some("30s".into()),
        status: Some("warning".into()),
        notes: Some("pinged by the deploy job".into()),
        ..Default::default()
    };
    daemon.send(consul.agent().register_check(&registration).unwrap()).done().unwrap();
    let checks = daemon.checks_now(&consul).unwrap();
    let check = &checks["web-alive"];
    assert_eq!(check.check_id, "web-alive");
    assert_eq!(check.name, "Web is alive");
    assert_eq!(check.status, "warning");
    assert_eq!(check.notes, "pinged by the deploy job");
    assert_eq!(check.node, "node1");
    assert_eq!(check.output, "");
    assert_eq!(check.service_id, "");
    assert_eq!(check.service_name, "");
}

#[test]
fn repeated_transition_gives_the_same_status() {
    let consul = Consul::default();
    let mut daemon = Daemon::new();
    let registration =
        AgentCheckRegistration { name: "c".into(), ttl: Some("15s".into()), ..Default::default() };
    daemon.send(consul.agent().register_check(&registration).unwrap()).done().unwrap();
    let first = consul.agent().warn_check("c", Some("slow")).unwrap();
    let again = consul.agent().warn_check("c", Some("slow")).unwrap();
    assert_eq!(first.url, again.url);
    assert_eq!(first.method, again.method);
    for _ in 0..3 {
        daemon.send(consul.agent().warn_check("c", Some("slow")).unwrap()).done().unwrap();
        let checks = daemon.checks_now(&consul).unwrap();
        assert_eq!(checks["c"].status, "warning");
        assert_eq!(checks["c"].output, "slow");
    }
    for _ in 0..2 {
        daemon.send(consul.agent().pass_check("c", None).unwrap()).done().unwrap();
        assert_eq!(daemon.checks_now(&consul).unwrap()["c"].status, "passing");
    }
}

#[test]
fn bytes_come_back_as_they_went_in() {
    let consul = Consul::default();
    let mut daemon = Daemon::new();
    let samples: Vec<Vec<u8>> = vec![
        vec![],
        vec![0],
        vec![0xff, 0xfe, 0x00, 0x80],
        b"plain text".to_vec(),
        (0u8..=255).collect(),
    ];
    for sample in samples {
        let request = consul.kv().insert_bytes("bin/sample", &sample).unwrap();
        assert_eq!(request.body, Some(sample.clone()));
        assert!(daemon.send(request).flag().unwrap());
        assert_eq!(daemon.get_bytes(&consul, "bin/sample").unwrap(), Some(sample));
    }
}

#[test]
fn value_that_is_no_text_fails_as_text_only() {
    let consul = Consul::default();
    let mut daemon = Daemon::new();
    let bytes = vec![0xc3, 0x28, 0xff];
    daemon.send(consul.kv().insert_bytes("bin/odd", &bytes).unwrap()).flag().unwrap();
    assert_eq!(daemon.get_bytes(&consul, "bin/odd").unwrap(), Some(bytes));
    assert!(matches!(daemon.get(&consul, "bin/odd"), Err(Error::Utf8(_))));
}

#[test]
fn absent_key_is_none_and_absent_prefix_is_an_error() {
    let consul = Consul::default();
    let mut daemon = Daemon::new();
    assert_eq!(daemon.get(&consul, "nothing/here").unwrap(), None);
    assert_eq!(daemon.get_bytes(&consul, "nothing/here").unwrap(), None);
    assert_eq!(daemon.contains_key(&consul, "nothing/here").unwrap(), false);
    let reply = daemon.send(consul.kv().get_entry("nothing/here").unwrap());
    assert!(KeyValue::get_entry_reply(&reply).unwrap().is_none());

    daemon.insert(&consul, "gone/a", "1").unwrap();
    daemon.send(consul.kv().remove_tree("gone/").unwrap()).done().unwrap();
    match daemon.keys(&consul, "gone/") {
        Err(Error::Consul(message)) => assert_eq!(message, "Not Found: "),
        other => panic!("expected the daemon's refusal, got {:?}", other),
    }
}

#[test]
fn check_goes_from_critical_to_passing_to_gone() {
    let consul = Consul::default();
    let mut daemon = Daemon::new();
    let registration = AgentCheckRegistration {
        name: "c".into(),
        ttl: Some("15s".into()),
        status: Some("critical".into()),
        ..Default::default()
    };
    daemon.send(consul.agent().register_check(&registration).unwrap()).done().unwrap();
    let checks = daemon.checks_now(&consul).unwrap();
    assert!(checks.contains_key("c"));
    assert_eq!(checks["c"].status, "critical");
    daemon.send(consul.agent().pass_check("c", None).unwrap()).done().unwrap();
    assert_eq!(daemon.checks_now(&consul).unwrap()["c"].status, "passing");
    daemon.send(consul.agent().deregister_check("c").unwrap()).done().unwrap();
    assert!(!daemon.checks_now(&consul).unwrap().contains_key("c"));
}

#[test]
fn service_check_is_reached_under_its_prefixed_id() {
    let consul = Consul::default();
    let mut daemon = Daemon::new();
    let registration = AgentServiceRegistration {
        id: Some("web1".into()),
        name: "web".into(),
        port: Some(8080),
        address: Some("10.0.0.7".into()),
        enable_tag_override: Some(true),
        check: Some(AgentCheckRegistration {
            name: "ignored by the daemon".into(),
            ttl: Some("10s".into()),
            ..Default::default()
        }),
        ..Default::default()
    };
    daemon.send(consul.agent().register_service(&registration).unwrap()).done().unwrap();
    let services = daemon.services_now(&consul).unwrap();
    assert_eq!(services["web1"].service, "web");
    assert_eq!(services["web1"].port, 8080);
    assert_eq!(services["web1"].address, "10.0.0.7");
    assert!(services["web1"].enable_tag_override);
    assert!(services["web1"].tags.is_empty());

    daemon.send(consul.agent().pass_service_check("web1", Some("up")).unwrap()).done().unwrap();
    let checks = daemon.checks_now(&consul).unwrap();
    assert_eq!(checks["service:web1"].status, "passing");
    assert_eq!(checks["service:web1"].output, "up");
    assert_eq!(checks["service:web1"].service_name, "web");
    daemon.send(consul.agent().fail_service_check("web1", None).unwrap()).done().unwrap();
    assert_eq!(daemon.checks_now(&consul).unwrap()["service:web1"].status, "critical");
    daemon.send(consul.agent().warn_service_check("web1", None).unwrap()).done().unwrap();
    assert_eq!(daemon.checks_now(&consul).unwrap()["service:web1"].status, "warning");
}

#[test]
fn daemon_refusal_carries_reason_and_body() {
    let consul = Consul::default();
    let mut daemon = Daemon::new();
    let out = daemon.send(consul.agent().pass_check("nobody", None).unwrap()).done();
    match out {
        Err(Error::Consul(message)) => assert_eq!(
            message,
            "Internal Server Error: CheckID \"nobody\" does not have associated TTL"
        ),
        other => panic!("expected the daemon's refusal, got {:?}", other),
    }
}
