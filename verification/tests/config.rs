use animal_facts::config::{
    config_file_name, ConfigData, ServerConfig, CONFIG_FILE_VARIABLE, DEFAULT_CONFIG_FILE,
};
use animal_facts::error::ServiceError;
use animal_facts::facts::config::FactsConfig;
use animal_facts::json::{parse, Json};

fn to_value(json: &Json) -> serde_json::Value {
    match json {
        Json::Null => serde_json::Value::Null,
        Json::Bool(b) => serde_json::Value::Bool(*b),
        Json::Number(n) => serde_json::from_str(n).unwrap(),
        Json::Text(s) => serde_json::Value::String(s.clone()),
        Json::Array(items) => serde_json::Value::Array(items.iter().map(to_value).collect()),
        Json::Object(members) => serde_json::Value::Object(
            members.iter().map(|(name, value)| (name.clone(), to_value(value))).collect(),
        ),
    }
}

fn render(json: &Json) -> String {
    serde_json::to_string(&to_value(json)).unwrap()
}

fn valid_config_data() -> ConfigData {
    ConfigData {
        server: ServerConfig { address: "0.0.0.0:8888".into() },
        animals: FactsConfig {
            default: "dog".into(),
            facts: vec![("dog".to_string(), "http://some-dog-endpoint".to_string())],
        },
    }
}

/// A valid configuration, written as JSON text and loaded again, is the
/// configuration that was written.
#[test]
fn valid_config() {
    let valid_config_data = valid_config_data();
    let plain_text_config = render(&valid_config_data.to_json());

    let config_data = ConfigData::new(Ok(plain_text_config)).unwrap();

    assert!(valid_config_data == config_data, "config data structs are not equal");
}

/// Contents that are no JSON do not load.
#[test]
fn invalid_config() {
    let invalid_config_data = "this is not a valid json configuration";

    let config_data = ConfigData::new(Ok(invalid_config_data.to_string()));

    assert!(config_data.is_err())
}

/// A file that does not exist does not load: reading it gives no contents,
/// only the reason.
#[test]
fn config_file_not_exist() {
    let filename = "blah_blah_blah.json";
    let read = Err(format!("{}: No such file or directory (os error 2)", filename));
    let config_data = ConfigData::new(read);
    assert!(config_data.is_err())
}

#[test]
fn unreadable_file_keeps_its_reason() {
    let loaded = ConfigData::new(Err("permission denied".to_string()));
    assert_eq!(loaded, Err(ServiceError::ConfigLoad("permission denied".to_string())));
}

#[test]
fn invalid_config_reports_config_load() {
    let loaded = ConfigData::new(Ok("this is not a valid json configuration".to_string()));
    assert!(matches!(loaded, Err(ServiceError::ConfigLoad(_))));
}

#[test]
fn config_of_wrong_shape_does_not_load() {
    let missing_server = "{\"animals\": {\"default\": \"dog\", \"facts\": {}}}";
    assert!(matches!(
        ConfigData::new(Ok(missing_server.to_string())),
        Err(ServiceError::ConfigLoad(_))
    ));
    let address_not_text =
        "{\"server\": {\"address\": 8888}, \"animals\": {\"default\": \"dog\", \"facts\": {}}}";
    assert!(ConfigData::new(Ok(address_not_text.to_string())).is_err());
    let endpoint_not_text = "{\"server\": {\"address\": \"a\"}, \"animals\": {\"default\": \"dog\", \"facts\": {\"dog\": 1}}}";
    assert!(ConfigData::new(Ok(endpoint_not_text.to_string())).is_err());
    let missing_default = "{\"server\": {\"address\": \"a\"}, \"animals\": {\"facts\": {}}}";
    assert!(ConfigData::new(Ok(missing_default.to_string())).is_err());
    assert!(ConfigData::new(Ok("[]".to_string())).is_err());
}

#[test]
fn config_loads_from_text() {
    let text = "{
        \"server\": { \"address\": \"127.0.0.1:8888\" },
        \"animals\": {
            \"default\": \"any\",
            \"facts\": { \"cat\": \"http://cats\", \"dog\": \"http://dogs\" }
        },
        \"comment\": \"members that the configuration does not name are passed over\"
    }";
    let config = ConfigData::new(Ok(text.to_string())).unwrap();
    assert_eq!(config.server.address, "127.0.0.1:8888");
    assert_eq!(config.animals.default, "any");
    assert_eq!(config.animals.endpoint("dog"), Some(&"http://dogs".to_string()));
    assert_eq!(config.animals.endpoint("cat"), Some(&"http://cats".to_string()));
    assert_eq!(config.animals.endpoint("cow"), None);
}

#[test]
fn config_round_trip_through_documents() {
    let config = ConfigData {
        server: ServerConfig { address: "0.0.0.0:1".into() },
        animals: FactsConfig {
            default: "any".into(),
            facts: vec![
                ("dog".to_string(), "http://d".to_string()),
                ("cat".to_string(), "http://c".to_string()),
            ],
        },
    };
    assert_eq!(ConfigData::from_json(&config.to_json()), Some(config.clone()));
    let text = render(&config.to_json());
    let loaded = ConfigData::from_document(parse(&text)).unwrap();
    assert_eq!(loaded, config);
    assert_eq!(ConfigData::new(Ok(text)), Ok(config));
}

#[test]
fn configurations_are_equal_as_mappings() {
    let listed = |pairs: &[(&str, &str)]| FactsConfig {
        default: "any".to_string(),
        facts: pairs.iter().map(|(animal, url)| (animal.to_string(), url.to_string())).collect(),
    };
    let config = listed(&[("dog", "d"), ("cat", "c")]);
    assert_eq!(config, listed(&[("cat", "c"), ("dog", "d")]));
    assert_eq!(config, listed(&[("dog", "x"), ("cat", "c"), ("dog", "d")]));
    assert_ne!(config, listed(&[("dog", "d")]));
    assert_ne!(listed(&[("dog", "d")]), config);
    assert_ne!(config, listed(&[("dog", "d"), ("cat", "other")]));
    assert_ne!(config, listed(&[("dog", "d"), ("cat", "c"), ("cow", "m")]));
    assert_ne!(config, FactsConfig { default: "dog".to_string(), facts: config.facts.clone() });
    assert_eq!(listed(&[]), listed(&[]));
    assert!(config.is_within(&listed(&[("dog", "d"), ("cat", "c"), ("cow", "m")])));
    assert!(!listed(&[("dog", "d"), ("cat", "c"), ("cow", "m")]).is_within(&config));
}

#[test]
fn last_listed_endpoint_counts() {
    let config = FactsConfig {
        default: "dog".into(),
        facts: vec![
            ("dog".to_string(), "http://first".to_string()),
            ("cat".to_string(), "http://cat".to_string()),
            ("dog".to_string(), "http://second".to_string()),
        ],
    };
    assert_eq!(config.endpoint("dog"), Some(&"http://second".to_string()));
    assert_eq!(config.clone(), config);
}

#[test]
fn configuration_file_name() {
    assert_eq!(CONFIG_FILE_VARIABLE, "RUST_FACTS_CONFIG_FILE");
    assert_eq!(DEFAULT_CONFIG_FILE, "config.json");
    assert_eq!(config_file_name(None), "config.json");
    assert_eq!(config_file_name(Some("other.json".to_string())), "other.json");
    assert_eq!(config_file_name(Some(String::new())), "");
}
