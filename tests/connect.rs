use kofr::connect::{
    decode_verbose_listing, ConnectorConfig, ConnectorName, ConnectorType, CreateConnector,
    HTTPClient, HTTPClientConfig, RestartOutcome, State, Task, VerboseConnector,
};
use kofr::decode::{DecodeError, JsonKind};
use kofr::http::{ApiError, HttpReply, Method};
use kofr::{Client, Config, Connector};

fn client(uri: &str) -> HTTPClient {
    HTTPClient::from_config(HTTPClientConfig { connect_uri: uri.to_string() })
}

fn ok(body: &str) -> HttpReply {
    HttpReply::Response { status: 200, body: body.to_string() }
}

fn sink_create() -> CreateConnector {
    CreateConnector {
        name: ConnectorName(String::from("sink-connector")),
        config: ConnectorConfig {
            entries: vec![
                ("tasks.max".to_string(), "10".to_string()),
                ("connector.class".to_string(), "com.example.kafka".to_string()),
                ("name".to_string(), "sink-connector".to_string()),
            ],
        },
    }
}

const CREATED_SINK: &str = r#"{"name":"sink-connector","config":{"tasks.max":"10","connector.class":"com.example.kafka","name":"sink-connector"},"tasks":[{"connector":"sink-connector","task":0}],"type":"sink"}"#;

fn status_entry(name: &str, ty: &str, tasks: usize) -> String {
    let mut ts = Vec::new();
    for i in 0..tasks {
        ts.push(format!(r#"{{"id":{},"state":"RUNNING","worker_id":"127.0.0.1:8083"}}"#, i));
    }
    format!(
        r#""{}":{{"status":{{"name":"{}","connector":{{"state":"RUNNING","worker_id":"127.0.0.1:8083"}},"tasks":[{}],"type":"{}"}}}}"#,
        name,
        name,
        ts.join(","),
        ty
    )
}

#[test]
fn connect_test_listing_connectors_should_return_empty_vec() {
    let c = client("http://localhost:8083/");
    let connectors_vec = c.list_connectors_status(&ok("[]")).unwrap();
    assert!(connectors_vec.is_empty());
}

#[test]
fn connect_test_creating_a_connector_should_return_the_right_connector() {
    let c = client("http://localhost:8083/");
    let create = sink_create();
    let expected_connector = Connector::from(&create);
    let returned_connector = c.create_connector(&ok(CREATED_SINK)).unwrap();
    assert_eq!(returned_connector, expected_connector);
}

#[test]
fn connect_test_listing_mutliple_connectors() {
    let c = client("http://localhost:8083");
    let body = format!("{{{},{}}}", status_entry("sink-connector", "sink", 1), status_entry("source-connector", "source", 1));
    let response = c.list_connectors_status(&ok(&body)).unwrap();
    assert_eq!(response.len(), 2);
}

#[test]
fn test_listing_connector_status() {
    let c = client("http://localhost:8083");
    let body = format!("{{{}}}", status_entry("sink-connector", "sink", 1));
    let connectors_vec = c.list_connectors_status(&ok(&body)).unwrap();
    assert_eq!(connectors_vec[0].name, ConnectorName(String::from("sink-connector")));
    assert_eq!(connectors_vec[0].tasks, 1);
    assert_eq!(connectors_vec[0].state, State::Running);
}

#[test]
fn test_listing_empty_connector_status() {
    let c = client("http://localhost:8083");
    let connectors: Vec<VerboseConnector> = c.list_connectors_status(&ok("{}")).unwrap();
    assert_eq!(connectors.len(), 0);
}

#[test]
fn lib_test_listing_connectors_should_return_empty_vec() {
    let c = Client::from_config(Config::from("http://localhost:8083/".to_string()));
    let connectors_vec = c.list_connectors(&ok("[]")).unwrap();
    assert_eq!(connectors_vec, Vec::new());
}

#[test]
fn lib_test_creating_a_connector_should_return_the_right_connector() {
    let c = Client::from_config(Config::from("http://localhost:8083/".to_string()));
    let expected_connector = Connector::from(&sink_create());
    let returned_connector = c.create_connector(&ok(CREATED_SINK)).unwrap();
    assert_eq!(returned_connector, expected_connector);
}

#[test]
fn lib_test_listing_mutliple_connectors() {
    let c = Client::from_config(Config::from("http://localhost:8083/".to_string()));
    let response = c.list_connectors(&ok(r#"["sink-connector","source-connector"]"#)).unwrap();
    assert_eq!(response.len(), 2);
    assert_eq!(response[1], ConnectorName("source-connector".to_string()));
}

#[test]
fn empty_object_listing_is_empty_not_an_error() {
    assert_eq!(decode_verbose_listing("{}").unwrap().len(), 0);
    assert_eq!(decode_verbose_listing(" [ ] ").unwrap().len(), 0);
}

#[test]
fn listing_entry_without_state_names_the_field() {
    let body = r#"{"a":{"status":{"connector":{"worker_id":"w"},"tasks":[],"type":"sink"}}}"#;
    let err = decode_verbose_listing(body).unwrap_err();
    assert_eq!(err, DecodeError::MissingField { path: "status.connector.state".to_string() });
    let body = r#"{"a":{"status":{"connector":{"state":"RUNNING","worker_id":"w"},"tasks":[],"type":"sink"}}}"#;
    let rows = decode_verbose_listing(body).unwrap();
    assert_eq!(rows[0].state, State::Running);
    assert_eq!(rows[0].worker_id, "w");
    assert_eq!(rows[0].tasks, 0);
}

#[test]
fn listing_errors_are_field_qualified() {
    let no_status = r#"{"a":{}}"#;
    assert_eq!(decode_verbose_listing(no_status).unwrap_err(), DecodeError::MissingField { path: "status".to_string() });
    let tasks_not_array = r#"{"a":{"status":{"tasks":3}}}"#;
    assert_eq!(
        decode_verbose_listing(tasks_not_array).unwrap_err(),
        DecodeError::WrongKind { path: "status.tasks".to_string(), expected: JsonKind::Array }
    );
    let bad_state = r#"{"a":{"status":{"connector":{"state":"SLEEPING","worker_id":"w"},"tasks":[],"type":"sink"}}}"#;
    assert_eq!(
        decode_verbose_listing(bad_state).unwrap_err(),
        DecodeError::UnknownValue { path: "status.connector.state".to_string(), value: "SLEEPING".to_string() }
    );
    let upper_type = r#"{"a":{"status":{"connector":{"state":"PAUSED","worker_id":"w"},"tasks":[],"type":"SINK"}}}"#;
    assert_eq!(
        decode_verbose_listing(upper_type).unwrap_err(),
        DecodeError::UnknownValue { path: "status.type".to_string(), value: "SINK".to_string() }
    );
    let type_number = r#"{"a":{"status":{"connector":{"state":"PAUSED","worker_id":"w"},"tasks":[],"type":1}}}"#;
    assert_eq!(
        decode_verbose_listing(type_number).unwrap_err(),
        DecodeError::WrongKind { path: "status.type".to_string(), expected: JsonKind::String }
    );
    assert_eq!(decode_verbose_listing("not json").unwrap_err(), DecodeError::NotJson);
    assert_eq!(
        decode_verbose_listing("[1]").unwrap_err(),
        DecodeError::WrongKind { path: String::new(), expected: JsonKind::Object }
    );
}

#[test]
fn listing_keeps_the_object_order_and_counts_tasks() {
    let body = format!("{{{},{}}}", status_entry("b-src", "source", 3), status_entry("a-sink", "sink", 2));
    let rows = decode_verbose_listing(&body).unwrap();
    assert_eq!(rows.len(), 2);
    assert_eq!(rows[0].name.0, "a-sink");
    assert_eq!(rows[0].connector_type, ConnectorType::Sink);
    assert_eq!(rows[0].tasks, 2);
    assert_eq!(rows[1].name.0, "b-src");
    assert_eq!(rows[1].connector_type, ConnectorType::Source);
    assert_eq!(rows[1].tasks, 3);
}

#[test]
fn scenario_one_sink_connector_listed() {
    let c = client("http://localhost:8083");
    let body = format!("{{{}}}", status_entry("sink-connector", "sink", 1));
    let rows = c.list_connectors_status(&ok(&body)).unwrap();
    assert_eq!(rows.len(), 1);
    assert_eq!(rows[0].name.0, "sink-connector");
    assert_eq!(rows[0].tasks, 1);
    assert_eq!(rows[0].state, State::Running);
    assert_eq!(rows[0].connector_type, ConnectorType::Sink);
}

const STATUS_BODY: &str = r#"{"name":"s","connector":{"state":"RESTARTING","worker_id":"w1"},"tasks":[{"id":0,"state":"FAILED","worker_id":"w2","trace":"boom"},{"id":1,"state":"RUNNING","worker_id":"w1"}],"type":"source"}"#;

#[test]
fn restart_outcome_follows_the_status_code() {
    let c = client("http://h");
    let accepted = c.restart_connector(&HttpReply::Response { status: 202, body: STATUS_BODY.to_string() }).unwrap();
    match accepted {
        RestartOutcome::Accepted(s) => {
            assert_eq!(s.name.0, "s");
            assert_eq!(s.connector_state.state, State::Restarting);
            assert_eq!(s.tasks.len(), 2);
            assert_eq!(s.tasks[0].trace, Some("boom".to_string()));
            assert_eq!(s.tasks[1].trace, None);
            assert_eq!(s.connector_type, ConnectorType::Source);
        },
        other => panic!("unexpected {:?}", other),
    }
    let no_content = c.restart_connector(&HttpReply::Response { status: 204, body: String::new() }).unwrap();
    assert_eq!(no_content, RestartOutcome::Restarted);
    let done = c.restart_connector(&HttpReply::Response { status: 200, body: String::new() }).unwrap();
    assert_eq!(done, RestartOutcome::Restarted);
    let other = c.restart_connector(&HttpReply::Response { status: 201, body: "later".to_string() }).unwrap();
    assert_eq!(other, RestartOutcome::Informational("later".to_string()));
    let refused = c.restart_connector(&HttpReply::Response { status: 409, body: "rebalancing".to_string() });
    assert_eq!(refused, Err(ApiError::ServerRejected { status: 409, body: "rebalancing".to_string() }));
}

#[test]
fn missing_connector_config_is_not_found_and_distinct_from_transport() {
    let c = client("http://h");
    let nf = c.get_connector_config("missing", &HttpReply::Response { status: 404, body: "{}".to_string() });
    assert_eq!(nf, Err(ApiError::ConnectorNotFound { name: "missing".to_string() }));
    let down = c.get_connector_config("missing", &HttpReply::Transport { message: "Connection refused".to_string() });
    assert_eq!(down, Err(ApiError::Transport { message: "Connection refused".to_string() }));
    let other = c.get_connector_config("missing", &HttpReply::Response { status: 500, body: "oops".to_string() });
    assert_eq!(other, Err(ApiError::ServerRejected { status: 500, body: "oops".to_string() }));
}

#[test]
fn connector_config_is_decoded_in_order() {
    let c = client("http://h");
    let cfg = c.get_connector_config("x", &ok(r#"{"b":"2","a":"1"}"#)).unwrap();
    assert_eq!(cfg.entries, vec![("a".to_string(), "1".to_string()), ("b".to_string(), "2".to_string())]);
    let bad = c.get_connector_config("x", &ok(r#"{"a":1}"#));
    assert_eq!(
        bad,
        Err(ApiError::MalformedResponse {
            error: DecodeError::WrongKind { path: "a".to_string(), expected: JsonKind::String },
            body: r#"{"a":1}"#.to_string(),
        })
    );
}

#[test]
fn describe_merges_status_and_config() {
    let c = client("http://h");
    let d = c
        .desribe_connector("s", &ok(STATUS_BODY), &ok(r#"{"tasks.max":"2"}"#))
        .unwrap();
    assert_eq!(d.name.0, "s");
    assert_eq!(d.config.entries, vec![("tasks.max".to_string(), "2".to_string())]);
    assert_eq!(d.state.worker_id, "w1");
    assert_eq!(d.tasks.len(), 2);
    let nf = c.desribe_connector("s", &HttpReply::Response { status: 404, body: String::new() }, &ok("{}"));
    assert_eq!(nf, Err(ApiError::ConnectorNotFound { name: "s".to_string() }));
    let nf2 = c.desribe_connector("s", &ok(STATUS_BODY), &HttpReply::Response { status: 404, body: String::new() });
    assert_eq!(nf2, Err(ApiError::ConnectorNotFound { name: "s".to_string() }));
}

#[test]
fn put_connector_distinguishes_failures() {
    let c = client("http://h");
    assert_eq!(
        c.put_connector("x", &HttpReply::Response { status: 404, body: String::new() }),
        Err(ApiError::ConnectorNotFound { name: "x".to_string() })
    );
    assert_eq!(
        c.put_connector("x", &HttpReply::Response { status: 400, body: "invalid".to_string() }),
        Err(ApiError::ServerRejected { status: 400, body: "invalid".to_string() })
    );
    assert_eq!(
        c.put_connector("x", &HttpReply::Transport { message: "dns".to_string() }),
        Err(ApiError::Transport { message: "dns".to_string() })
    );
    let updated = c.put_connector("sink-connector", &ok(CREATED_SINK)).unwrap();
    assert_eq!(updated.tasks, vec![Task { connector: ConnectorName("sink-connector".to_string()), id: 0 }]);
}

#[test]
fn lifecycle_operations_accept_any_success_status() {
    let c = client("http://h");
    assert_eq!(c.pause_connector(&HttpReply::Response { status: 202, body: String::new() }), Ok(()));
    assert_eq!(c.resume_connector(&HttpReply::Response { status: 202, body: String::new() }), Ok(()));
    assert_eq!(c.delete_connector(&HttpReply::Response { status: 204, body: String::new() }), Ok(()));
    assert_eq!(
        c.delete_connector(&HttpReply::Response { status: 404, body: "no such".to_string() }),
        Err(ApiError::ServerRejected { status: 404, body: "no such".to_string() })
    );
}

#[test]
fn requests_target_the_connector_collection() {
    let c = client("http://h:8083");
    let r = c.list_connectors_status_request();
    assert_eq!(r.method, Method::Get);
    assert_eq!(r.url, "http://h:8083/connectors");
    assert_eq!(r.query, vec![("expand".to_string(), "status".to_string())]);
    let c = client("http://h:8083/");
    assert_eq!(c.get_connector_config_request("x").url, "http://h:8083/connectors/x/config");
    assert_eq!(c.get_connector_status_request("x").url, "http://h:8083/connectors/x/status");
    assert_eq!(c.put_connector_request("x").method, Method::Put);
    assert_eq!(c.pause_connector_request("x").url, "http://h:8083/connectors/x/pause");
    assert_eq!(c.resume_connector_request("x").url, "http://h:8083/connectors/x/resume");
    let d = c.delete_connector_request("x");
    assert_eq!((d.method, d.url.as_str()), (Method::Delete, "http://h:8083/connectors/x"));
    let r = c.restart_connector_request("x", true, false);
    assert_eq!(r.method, Method::Post);
    assert_eq!(r.url, "http://h:8083/connectors/x/restart");
    assert_eq!(
        r.query,
        vec![("includeTasks".to_string(), "true".to_string()), ("onlyFailed".to_string(), "false".to_string())]
    );
    assert_eq!(c.valid_uri("http://a/"), "http://a/connectors");
    assert_eq!(c.valid_uri("http://a"), "http://a/connectors");
}

#[test]
fn connector_type_is_guessed_from_the_lower_cased_name() {
    let upper = CreateConnector { name: ConnectorName("My-SINK-Conn".to_string()), config: ConnectorConfig { entries: vec![] } };
    assert_eq!(Connector::from(&upper).connector_type, ConnectorType::Sink);
    let source = CreateConnector { name: ConnectorName("mongo".to_string()), config: ConnectorConfig { entries: vec![] } };
    let c = Connector::from(&source);
    assert_eq!(c.connector_type, ConnectorType::Source);
    assert_eq!(c.tasks, vec![Task { connector: ConnectorName("mongo".to_string()), id: 0 }]);
}

#[test]
fn tokens_parse_and_print() {
    assert_eq!(State::from_str("RUNNING"), Some(State::Running));
    assert_eq!(State::from_str("UNASSIGNED"), Some(State::Unassigned));
    assert_eq!(State::from_str("running"), None);
    assert_eq!(State::Paused.as_str(), "PAUSED");
    assert_eq!(ConnectorType::from_str("source"), Some(ConnectorType::Source));
    assert_eq!(ConnectorType::from_str("Source"), None);
    assert_eq!(ConnectorType::Sink.as_str(), "SINK");
    assert_eq!(ConnectorType::Sink.token(), "sink");
}

#[test]
fn malformed_created_connector_keeps_the_body() {
    let c = client("http://h");
    let r = c.create_connector(&HttpReply::Response { status: 201, body: r#"{"name":"x"}"#.to_string() });
    assert_eq!(
        r,
        Err(ApiError::MalformedResponse {
            error: DecodeError::MissingField { path: "config".to_string() },
            body: r#"{"name":"x"}"#.to_string(),
        })
    );
    let dup = c.create_connector(&HttpReply::Response { status: 409, body: "exists".to_string() });
    assert_eq!(dup, Err(ApiError::ServerRejected { status: 409, body: "exists".to_string() }));
}

#[test]
fn settings_with_a_repeated_name_are_not_well_formed() {
    let unique = ConnectorConfig { entries: vec![("a".to_string(), "1".to_string()), ("b".to_string(), "1".to_string())] };
    assert!(unique.has_unique_keys());
    let repeated = ConnectorConfig { entries: vec![("a".to_string(), "1".to_string()), ("a".to_string(), "2".to_string())] };
    assert!(!repeated.has_unique_keys());
    let c = HTTPClient::from_config(HTTPClientConfig { connect_uri: "http://h".to_string() });
    let decoded = c.get_connector_config("x", &ok(r#"{"b":"2","a":"1"}"#)).unwrap();
    assert!(decoded.has_unique_keys());
    assert_eq!(decoded, ConnectorConfig { entries: vec![("b".to_string(), "2".to_string()), ("a".to_string(), "1".to_string())] });
    assert_ne!(decoded, unique);
}
