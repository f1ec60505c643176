use monitoring_agent::config::{Config, PortEntry, DEFAULT_APP_PORT};

fn entry(name: &str, port: u16) -> PortEntry {
    PortEntry { name: name.to_string(), port }
}

fn sample() -> Config {
    Config::new(
        vec!["sshd".to_string(), "nginx".to_string()],
        vec![entry("web", 80), entry("api", 8080)],
        Some(1234),
    )
    .unwrap()
}

#[test]
fn test_config_parse() {
    let toml = r#"
            app_port = 1234
            services = ["sshd"]
            [http_ports]
            web = 80
            api = 8080
        "#;
    let table: toml::Table = toml.parse().unwrap();
    let services: Vec<String> = table["services"]
        .as_array()
        .unwrap()
        .iter()
        .map(|name| name.as_str().unwrap().to_string())
        .collect();
    let http_ports: Vec<PortEntry> = table["http_ports"]
        .as_table()
        .unwrap()
        .iter()
        .map(|(name, port)| entry(name, u16::try_from(port.as_integer().unwrap()).unwrap()))
        .collect();
    let app_port =
        table.get("app_port").map(|port| u16::try_from(port.as_integer().unwrap()).unwrap());
    let config: Config = Config::new(services, http_ports, app_port).unwrap();
    assert_eq!(config.app_port, Some(1234));
    assert_eq!(config.services, vec!["sshd"]);
    assert_eq!(config.port_named("web"), Some(80));
    assert_eq!(config.port_named("api"), Some(8080));
}

#[test]
fn config_keeps_its_parts() {
    let config = sample();
    assert_eq!(config.app_port, Some(1234));
    assert_eq!(config.services, vec!["sshd", "nginx"]);
    assert_eq!(config.http_ports.len(), 2);
    assert_eq!(config.http_ports[0].name, "web");
    assert_eq!(config.http_ports[0].port, 80);
    assert_eq!(config.http_ports[1].name, "api");
    assert_eq!(config.http_ports[1].port, 8080);
}

#[test]
fn config_refuses_a_name_that_stands_twice() {
    assert!(Config::new(vec![], vec![entry("web", 80), entry("web", 81)], None).is_none());
    assert!(Config::new(vec![], vec![entry("a", 1), entry("b", 2), entry("a", 1)], None).is_none());
    assert!(Config::new(vec![], vec![entry("a", 1), entry("b", 1)], None).is_some());
    assert!(Config::new(vec![], vec![], None).is_some());
}

#[test]
fn config_finds_a_port_by_its_name() {
    let config = sample();
    assert_eq!(config.port_named("web"), Some(80));
    assert_eq!(config.port_named("api"), Some(8080));
}

#[test]
fn config_has_no_port_for_an_unknown_name() {
    let config = sample();
    assert_eq!(config.port_named("unknown"), None);
    assert_eq!(config.port_named("We"), None);
    assert_eq!(config.port_named(""), None);
    assert_eq!(config.port_named("sshd"), None);
}

#[test]
fn config_knows_its_services() {
    let config = sample();
    assert!(config.is_service("sshd"));
    assert!(config.is_service("nginx"));
    assert!(!config.is_service("unknown"));
    assert!(!config.is_service("web"));
    assert!(!config.is_service("ssh"));
}

#[test]
fn config_listens_on_the_default_port_unless_told() {
    assert_eq!(sample().listen_port(), 1234);
    let bare = Config::new(vec![], vec![], None).unwrap();
    assert_eq!(bare.listen_port(), 8081);
    assert_eq!(DEFAULT_APP_PORT, 8081);
}

#[test]
fn config_lookup_takes_the_first_entry_of_a_name() {
    let config = Config {
        services: vec![],
        http_ports: vec![entry("web", 80), entry("web", 81)],
        app_port: None,
    };
    assert_eq!(config.port_named("web"), Some(80));
}
