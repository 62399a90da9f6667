use kofr::cli::{AddCluster, RemoveCluster, UseCluster};
use kofr::config::{ClusterContext, Config, ConfigError, HostChoice};
use kofr::decode::{DecodeError, JsonKind};

fn load(text: &str) -> Result<Config, ConfigError> {
    Config::new(String::new()).with_file("config".to_string(), text)
}

fn config_with_one_cluster(cluster: &str, host: &str) -> Config {
    load(&format!("\ncurrent-cluster: {}\nclusters:\n- name: {}\n  hosts:\n  - {}\n", cluster, cluster, host)).unwrap()
}

#[test]
fn test_invalid_config_file_format() {
    let text = "\ncurrent-cluster: test\n#clusters:\n- name: test\n";
    assert!(load(text).is_err());
    assert_eq!(
        load("current-cluster: test\n"),
        Err(ConfigError::ParseFailed { error: DecodeError::MissingField { path: "clusters".to_string() } })
    );
    assert_eq!(load("a: [b"), Err(ConfigError::NotYaml));
    assert_eq!(
        load("- a\n- b\n"),
        Err(ConfigError::ParseFailed { error: DecodeError::WrongKind { path: String::new(), expected: JsonKind::Object } })
    );
}

#[test]
fn test_kofr_use_cluster_success() {
    let mut config = config_with_one_cluster("test", "http://localhost:8083/");
    let use_cluster = UseCluster { cluster: "test".to_string() };
    assert_eq!(use_cluster.run(&mut config), Ok(()));
    assert_eq!(config.current_cluster, Some("test".to_string()));
}

#[test]
fn test_kofr_use_cluster_failure() {
    let mut config = config_with_one_cluster("test", "http://localhost:8083/");
    let use_cluster = UseCluster { cluster: "dummy".to_string() };
    assert_eq!(use_cluster.run(&mut config), Err(ConfigError::ClusterNotFound { name: "dummy".to_string() }));
    assert_eq!(config.current_cluster, Some("test".to_string()));
}

#[test]
fn test_kofr_config_current_context_failure() {
    let config = load("\nclusters:\n- name: test\n  hosts:\n  - http://localhost:8083/\n").unwrap();
    assert_eq!(config.current_context(), Err(ConfigError::NoCurrentContext));
}

#[test]
fn test_kofr_config_current_context_success() {
    let config = config_with_one_cluster("test", "http://localhost:8083/");
    assert_eq!(config.current_context().unwrap().name, "test");
}

#[test]
fn test_kofr_config_get_clusters() {
    let config = load(
        "\ncurrent-cluster: test\nclusters:\n\n- name: test\n  hosts:\n  - http://a:1/\n        \n- name: dev\n  hosts:\n  - http://b:2/\n        ",
    )
    .unwrap();
    let names: Vec<&str> = config.clusters.iter().map(|c| c.name.as_str()).collect();
    assert_eq!(names, vec!["test", "dev"]);
}

#[test]
fn test_kofr_config_get_clusters_are_empty() {
    let config = load("\n    clusters:\n    ").unwrap();
    assert!(config.clusters.is_empty());
    assert_eq!(config.current_cluster, None);
}

#[test]
fn test_kofr_config_add_cluster() {
    let mut config = config_with_one_cluster("dev", "http://localhost:8083/");
    let add = AddCluster { name: "test".to_string(), hosts: "http://a:1/,http://b:2/,".to_string() };
    assert_eq!(add.run(&mut config), Ok(()));
    let names: Vec<&str> = config.clusters.iter().map(|c| c.name.as_str()).collect();
    assert_eq!(names, vec!["dev", "test"]);
    let current = config.current_context().unwrap();
    assert_eq!(current.name, "test");
    assert_eq!(current.hosts, vec!["http://a:1/".to_string(), "http://b:2/".to_string(), String::new()]);
    assert_eq!(UseCluster { cluster: "test".to_string() }.run(&mut config), Ok(()));
}

#[test]
fn kofr_config_add_cluster_that_already_exists() {
    let mut config = config_with_one_cluster("dev", "http://localhost:8083/");
    let before = config.to_yaml().unwrap();
    let add = AddCluster { name: "dev".to_string(), hosts: "http://a:1/,http://b:2/,".to_string() };
    assert_eq!(add.run(&mut config), Err(ConfigError::ClusterAlreadyExists { name: "dev".to_string() }));
    assert_eq!(config.to_yaml().unwrap(), before);
    assert_eq!(config.clusters.len(), 1);
}

#[test]
fn kofr_config_delete_cluster() {
    let mut config = config_with_one_cluster("dev", "http://localhost:8083/");
    let remove = RemoveCluster { name: "dev".to_string() };
    assert_eq!(remove.run(&mut config), Ok(()));
    assert!(config.clusters.is_empty());
    assert_eq!(remove.run(&mut config), Err(ConfigError::ClusterNotFound { name: "dev".to_string() }));
}

#[test]
fn removing_the_current_cluster_leaves_a_dangling_reference() {
    let mut config = config_with_one_cluster("dev", "http://localhost:8083/");
    config.remove_cluster("dev").unwrap();
    assert_eq!(config.current_cluster, Some("dev".to_string()));
    assert_eq!(config.current_context(), Err(ConfigError::ClusterNotFound { name: "dev".to_string() }));
}

#[test]
fn add_cluster_then_current_context_is_that_cluster() {
    let mut config = Config::new("f".to_string());
    config.add_cluster("a", vec!["h1".to_string()]).unwrap();
    config.add_cluster("b", vec!["h2".to_string(), "h3".to_string()]).unwrap();
    let c = config.current_context().unwrap();
    assert_eq!(c, &ClusterContext { name: "b".to_string(), hosts: vec!["h2".to_string(), "h3".to_string()] });
    assert_eq!(config.file_path, "f");
}

#[test]
fn configuration_round_trips_through_yaml() {
    let mut config = Config::new("p".to_string());
    config.add_cluster("dev", vec!["http://a:1/".to_string(), "http://b:2/".to_string()]).unwrap();
    config.add_cluster("prod: main", vec![]).unwrap();
    let text = config.to_yaml().unwrap();
    let back = Config::new(String::new()).with_file("p".to_string(), &text).unwrap();
    assert_eq!(back, config);
    let mut none = Config::new("q".to_string());
    none.add_cluster("x", vec!["h".to_string()]).unwrap();
    none.current_cluster = None;
    let back = Config::new(String::new()).with_file("q".to_string(), &none.to_yaml().unwrap()).unwrap();
    assert_eq!(back, none);
}

#[test]
fn failover_uses_the_first_host_that_answers() {
    let c = ClusterContext { name: "c".to_string(), hosts: vec!["h1".to_string(), "h2".to_string(), "h3".to_string()] };
    assert_eq!(c.available_host(&vec![]), Ok(HostChoice::Probe("h1".to_string())));
    assert_eq!(c.available_host(&vec![false]), Ok(HostChoice::Probe("h2".to_string())));
    assert_eq!(c.available_host(&vec![false, true]), Ok(HostChoice::Use("h2".to_string())));
    assert_eq!(c.available_host(&vec![true, true]), Ok(HostChoice::Use("h1".to_string())));
    assert_eq!(
        c.available_host(&vec![false, false, false]),
        Err(ConfigError::NoAvailableHost { cluster: "c".to_string() })
    );
    let empty = ClusterContext { name: "e".to_string(), hosts: vec![] };
    assert_eq!(empty.available_host(&vec![]), Err(ConfigError::NoAvailableHost { cluster: "e".to_string() }));
}

#[test]
fn configuration_is_written_as_yaml() {
    let mut config = Config::new("p".to_string());
    config.add_cluster("dev", vec!["http://a:1/".to_string()]).unwrap();
    let text = config.to_yaml().expect("serde_yaml writes the document");
    assert!(text.contains("current-cluster: dev"));
    assert!(text.contains("  name: dev"));
    assert!(text.contains("http://a:1/"));
}
