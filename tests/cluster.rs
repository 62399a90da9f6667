use kofr::cluster::{get_uri_status, hosts_status, reported_cluster_id, UriState};
use kofr::connector_plugins::{class_name, list_plugins, plugins_endpoint, validate_config_request};
use kofr::connect::ConnectorConfig;
use kofr::http::{ApiError, HttpReply, Method};
use kofr::tasks::{
    find_task, list_tasks, restart_task, task_status, task_status_request, valid_uri, TaskState,
};
use kofr::text::split_text;
use kofr::topics::{list_topics, list_topics_request, reset_request};

#[test]
fn test_kofr_cluster_status() {
    let a = "http://a:1/".to_string();
    let b = "http://b:2/".to_string();
    let up = || HttpReply::Response { status: 200, body: r#"{"version":"3.6","kafka_cluster_id":"abc"}"#.to_string() };
    let down = || HttpReply::Transport { message: "Connection refused".to_string() };
    let both = hosts_status(&vec![(a.clone(), up()), (b.clone(), up())]);
    assert_eq!(both.iter().filter(|s| s.state == UriState::Online).count(), 2);
    let one = hosts_status(&vec![(a.clone(), up()), (b.clone(), down())]);
    assert_eq!(one[0].state, UriState::Online);
    assert_eq!(one[0].uri, "http://a:1/");
    assert_eq!(one[1].state, UriState::Offline);
    assert_eq!(one[1].uri, "http://b:2/");
    assert_eq!(reported_cluster_id(&one), "abc");
    let none = hosts_status(&vec![(a.clone(), down()), (b.clone(), down())]);
    assert_eq!(none.iter().filter(|s| s.state == UriState::Offline).count(), 2);
    assert_eq!(reported_cluster_id(&none), "");
}

#[test]
fn probe_classification() {
    let s = get_uri_status("h", &HttpReply::Response { status: 500, body: "{}".to_string() });
    assert_eq!((s.state, s.id.as_str()), (UriState::Offline, ""));
    let s = get_uri_status("h", &HttpReply::Response { status: 200, body: "hello".to_string() });
    assert_eq!((s.state, s.id.as_str()), (UriState::Online, ""));
    let s = get_uri_status("h", &HttpReply::Response { status: 200, body: r#"{"kafka_cluster_id":"k1"}"#.to_string() });
    assert_eq!(s.id, "k1");
    assert_eq!(UriState::Online.as_str(), "Online");
}

#[test]
fn task_urls_and_replies() {
    assert_eq!(valid_uri("http://h/"), "http://h/connectors");
    let r = task_status_request("http://h", "c", 12);
    assert_eq!((r.method, r.url.as_str()), (Method::Get, "http://h/connectors/c/tasks/12/status"));
    let body = r#"[{"id":{"connector":"c","task":0},"config":{"k":"v"}},{"id":{"connector":"c","task":1},"config":{}}]"#;
    let tasks = list_tasks("c", &HttpReply::Response { status: 200, body: body.to_string() }).unwrap();
    assert_eq!(tasks.len(), 2);
    assert_eq!(tasks[0].config.entries, vec![("k".to_string(), "v".to_string())]);
    assert_eq!(find_task(&tasks, "c", 1), Some(1));
    assert_eq!(find_task(&tasks, "c", 2), None);
    assert_eq!(find_task(&tasks, "d", 0), None);
    assert_eq!(
        list_tasks("c", &HttpReply::Response { status: 404, body: String::new() }),
        Err(ApiError::ConnectorNotFound { name: "c".to_string() })
    );
    let st = task_status("c", 0, &HttpReply::Response { status: 200, body: r#"{"id":0,"state":"PAUSED","worker_id":"w"}"#.to_string() }).unwrap();
    assert_eq!(st.state, TaskState::Paused);
    assert_eq!(
        task_status("c", 7, &HttpReply::Response { status: 404, body: String::new() }),
        Err(ApiError::TaskNotFound { connector: "c".to_string(), task: 7 })
    );
    assert_eq!(restart_task("c", 0, &HttpReply::Response { status: 204, body: String::new() }), Ok(()));
    assert_eq!(TaskState::from_str("DEAD"), Some(TaskState::Dead));
    assert_eq!(TaskState::Lost.as_str(), "LOST");
}

#[test]
fn topics_and_plugins() {
    assert_eq!(list_topics_request("http://h", "c").url, "http://h/connectors/c/topics");
    assert_eq!(reset_request("http://h/", "c").url, "http://h/connectors/c/topics/reset");
    let t = list_topics(&HttpReply::Response { status: 200, body: r#"{"c":{"topics":["t1","t2"]}}"#.to_string() }).unwrap();
    assert_eq!(t.topics.len(), 1);
    assert_eq!(t.topics[0].0, "c");
    assert_eq!(t.topics[0].1.topics, vec!["t1".to_string(), "t2".to_string()]);
    assert_eq!(plugins_endpoint("http://h"), "http://h/connector-plugins");
    assert_eq!(validate_config_request("http://h/", "com.X").url, "http://h/connector-plugins/com.X/config/validate");
    let v = list_plugins(&HttpReply::Response { status: 200, body: r#"[{"class":"a"}]"#.to_string() }).unwrap();
    assert!(v.is_array());
    let config = ConnectorConfig { entries: vec![("connector.class".to_string(), "com.Y".to_string())] };
    assert_eq!(class_name(None, &config), Some("com.Y".to_string()));
    assert_eq!(class_name(Some("com.Z".to_string()), &config), Some("com.Z".to_string()));
    assert_eq!(class_name(None, &ConnectorConfig { entries: vec![] }), None);
}

#[test]
fn hosts_are_split_at_commas() {
    assert_eq!(split_text("a,b,", ','), vec!["a".to_string(), "b".to_string(), String::new()]);
    assert_eq!(split_text("", ','), vec![String::new()]);
    assert_eq!(split_text("one", ','), vec!["one".to_string()]);
}
