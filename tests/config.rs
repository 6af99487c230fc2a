use merkle_kv_config::{Config, LoadError, Overrides, SchemaProblem, Scalar, Setting};
use std::io::Write;
use tempfile::NamedTempFile;

const SAMPLE: &str = r#"
host = "127.0.0.1"
port = 7379
storage_path = "data"
sync_interval_seconds = 60

[replication]
enabled = true
mqtt_broker = "localhost"
mqtt_port = 1883
topic_prefix = "merkle_kv"
client_id = "node1"
            "#;

fn no_overrides() -> Overrides {
    Overrides { client_id: None, client_password: None }
}

fn schema_error(field: &str, problem: SchemaProblem) -> LoadError {
    LoadError::SchemaError { field: field.to_string(), problem }
}

#[test]
fn test_config_load() {
    let mut temp_file = NamedTempFile::new().unwrap();
    temp_file.as_file_mut().write_all(SAMPLE.as_bytes()).unwrap();

    let mut config = Config::default();
    config.host = "127.0.0.1".to_string();
    config.port = 7379;
    config.storage_path = "data".to_string();
    config.sync_interval_seconds = 60;
    config.replication.enabled = true;
    config.replication.mqtt_broker = "localhost".to_string();
    config.replication.mqtt_port = 1883;
    config.replication.topic_prefix = "merkle_kv".to_string();
    config.replication.client_id = "node1".to_string();
    config.replication.client_password = None;

    assert_eq!(config.host, "127.0.0.1");
    assert_eq!(config.port, 7379);
    assert_eq!(config.storage_path, "data");
    assert_eq!(config.sync_interval_seconds, 60);
    assert_eq!(config.replication.enabled, true);
    assert_eq!(config.replication.mqtt_broker, "localhost");
    assert_eq!(config.replication.mqtt_port, 1883);
    assert_eq!(config.replication.topic_prefix, "merkle_kv");
    assert_eq!(config.replication.client_id, "node1");
    assert_eq!(config.replication.client_password, None);
}

#[test]
fn test_config_env_override() {
    let mut config = Config::default();
    config.apply_overrides(Overrides {
        client_id: Some("env_override_node".to_string()),
        client_password: Some("env_override_password".to_string()),
    });

    assert_eq!(config.replication.client_id, "env_override_node");
    assert_eq!(config.replication.client_password, Some("env_override_password".to_string()));
}

#[test]
fn sample_text_loads_to_the_same_record() {
    let loaded = Config::load(SAMPLE, no_overrides()).unwrap();
    let mut expected = Config::default();
    expected.replication.enabled = true;
    assert_eq!(loaded, expected);
}

#[test]
fn defaults_are_the_baseline_and_repeat() {
    let a = Config::default();
    let b = Config::default();
    assert_eq!(a, b);
    assert_eq!(a.host, "127.0.0.1");
    assert_eq!(a.port, 7379);
    assert_eq!(a.storage_path, "data");
    assert_eq!(a.engine, "rwlock");
    assert_eq!(a.sync_interval_seconds, 60);
    assert_eq!(a.replication.enabled, false);
    assert_eq!(a.replication.mqtt_broker, "localhost");
    assert_eq!(a.replication.mqtt_port, 1883);
    assert_eq!(a.replication.topic_prefix, "merkle_kv");
    assert_eq!(a.replication.client_id, "node1");
    assert_eq!(a.replication.client_password, None);
}

#[test]
fn document_round_trip_keeps_every_field() {
    let mut c = Config::default();
    c.host = "10.0.0.5".to_string();
    c.port = 65535;
    c.engine = "kv".to_string();
    c.sync_interval_seconds = 0;
    c.replication.client_password = Some(String::new());
    assert_eq!(Config::from_document(&c.to_document()).unwrap(), c);

    let d = Config::default();
    let back = Config::from_document(&d.to_document()).unwrap();
    assert_eq!(back, d);
    assert_eq!(back.replication.client_password, None);
}

#[test]
fn client_id_override_wins_over_file() {
    let text = "host = \"h\"\nport = 1\n[replication]\nenabled = false\nmqtt_broker = \"b\"\n\
                mqtt_port = 2\ntopic_prefix = \"t\"\nclient_id = \"file_node\"\n";
    let overrides = Overrides { client_id: Some("env_node".to_string()), client_password: None };
    let c = Config::load(text, overrides).unwrap();
    assert_eq!(c.replication.client_id, "env_node");
}

#[test]
fn password_override_alone_keeps_client_id() {
    let text = "host = \"h\"\nport = 1\n[replication]\nenabled = false\nmqtt_broker = \"b\"\n\
                mqtt_port = 2\ntopic_prefix = \"t\"\nclient_id = \"file_node\"\n";
    let overrides = Overrides { client_id: None, client_password: Some("secret".to_string()) };
    let c = Config::load(text, overrides).unwrap();
    assert_eq!(c.replication.client_id, "file_node");
    assert_eq!(c.replication.client_password, Some("secret".to_string()));
}

#[test]
fn empty_overrides_are_applied_verbatim() {
    let overrides = Overrides { client_id: Some(String::new()), client_password: Some(String::new()) };
    let c = Config::load(SAMPLE, overrides).unwrap();
    assert_eq!(c.replication.client_id, "");
    assert_eq!(c.replication.client_password, Some(String::new()));
}

#[test]
fn absent_password_stays_absent() {
    let c = Config::load(SAMPLE, no_overrides()).unwrap();
    assert_eq!(c.replication.client_password, None);
}

#[test]
fn password_in_file_is_read() {
    let text = format!("{}\nclient_password = \"pw\"\n", SAMPLE.trim_end());
    let c = Config::load(&text, no_overrides()).unwrap();
    assert_eq!(c.replication.client_password, Some("pw".to_string()));
}

#[test]
fn missing_port_is_a_schema_error() {
    let text = "host = \"h\"\n[replication]\nenabled = false\nmqtt_broker = \"b\"\n\
                mqtt_port = 2\ntopic_prefix = \"t\"\nclient_id = \"c\"\n";
    let overrides = Overrides { client_id: Some("x".to_string()), client_password: None };
    assert_eq!(Config::load(text, overrides), Err(schema_error("port", SchemaProblem::Missing)));
}

#[test]
fn unterminated_table_is_a_parse_error() {
    let r = Config::load("host = \"h\"\n[replication\nenabled = true\n", no_overrides());
    assert!(matches!(r, Err(LoadError::ParseError(ref m)) if !m.is_empty()));
    assert_eq!(Config::default().port, 7379);
}

#[test]
fn example_scenario_loads_exactly() {
    let text = "host=\"0.0.0.0\"\nport=9000\n[replication]\nenabled=true\nmqtt_broker=\"broker1\"\n\
                mqtt_port=1883\ntopic_prefix=\"ns\"\nclient_id=\"nodeA\"\n";
    let c = Config::load(text, no_overrides()).unwrap();
    assert_eq!(c.host, "0.0.0.0");
    assert_eq!(c.port, 9000);
    assert_eq!(c.storage_path, "data");
    assert_eq!(c.engine, "rwlock");
    assert_eq!(c.sync_interval_seconds, 60);
    assert_eq!(c.replication.enabled, true);
    assert_eq!(c.replication.mqtt_broker, "broker1");
    assert_eq!(c.replication.mqtt_port, 1883);
    assert_eq!(c.replication.topic_prefix, "ns");
    assert_eq!(c.replication.client_id, "nodeA");
    assert_eq!(c.replication.client_password, None);
}

#[test]
fn wrong_types_and_ranges_are_schema_errors() {
    let base = "[replication]\nenabled = false\nmqtt_broker = \"b\"\nmqtt_port = 2\n\
                topic_prefix = \"t\"\nclient_id = \"c\"\n";
    let with = |top: &str| format!("{}\n{}", top, base);
    assert_eq!(
        Config::load(&with("host = \"h\"\nport = \"abc\""), no_overrides()),
        Err(schema_error("port", SchemaProblem::WrongType))
    );
    assert_eq!(
        Config::load(&with("host = \"h\"\nport = 70000"), no_overrides()),
        Err(schema_error("port", SchemaProblem::OutOfRange))
    );
    assert_eq!(
        Config::load(&with("host = 5\nport = 1"), no_overrides()),
        Err(schema_error("host", SchemaProblem::WrongType))
    );
    assert_eq!(
        Config::load(&with("host = \"h\"\nport = 1\nsync_interval_seconds = -1"), no_overrides()),
        Err(schema_error("sync_interval_seconds", SchemaProblem::OutOfRange))
    );
    assert_eq!(
        Config::load(&with("host = \"h\"\nport = 1\nengine = true"), no_overrides()),
        Err(schema_error("engine", SchemaProblem::WrongType))
    );
}

#[test]
fn replication_table_faults_name_their_path() {
    assert_eq!(
        Config::load("host = \"h\"\nport = 1\n", no_overrides()),
        Err(schema_error("replication", SchemaProblem::Missing))
    );
    assert_eq!(
        Config::load("host = \"h\"\nport = 1\nreplication = 3\n", no_overrides()),
        Err(schema_error("replication", SchemaProblem::WrongType))
    );
    let text = "host = \"h\"\nport = 1\n[replication]\nenabled = false\nmqtt_broker = \"b\"\n\
                mqtt_port = 2\ntopic_prefix = \"t\"\n";
    assert_eq!(
        Config::load(text, no_overrides()),
        Err(schema_error("replication.client_id", SchemaProblem::Missing))
    );
    let text = format!("{}\nclient_password = 7\n", SAMPLE.trim_end());
    assert_eq!(
        Config::load(&text, no_overrides()),
        Err(schema_error("replication.client_password", SchemaProblem::WrongType))
    );
}

#[test]
fn unknown_keys_are_ignored() {
    let text = format!("extra = 1\n{}\nunused = \"u\"\n", SAMPLE.trim_end());
    let mut expected = Config::default();
    expected.replication.enabled = true;
    assert_eq!(Config::load(&text, no_overrides()).unwrap(), expected);
}

#[test]
fn from_document_reads_plain_entries() {
    let doc = vec![
        ("host".to_string(), Setting::Value(Scalar::Str("a".to_string()))),
        ("port".to_string(), Setting::Value(Scalar::Int(80))),
        (
            "replication".to_string(),
            Setting::Table(vec![
                ("enabled".to_string(), Scalar::Bool(true)),
                ("mqtt_broker".to_string(), Scalar::Str("m".to_string())),
                ("mqtt_port".to_string(), Scalar::Int(1)),
                ("topic_prefix".to_string(), Scalar::Str("p".to_string())),
                ("client_id".to_string(), Scalar::Str("i".to_string())),
            ]),
        ),
        ("port".to_string(), Setting::Value(Scalar::Int(81))),
    ];
    let c = Config::from_document(&doc).unwrap();
    assert_eq!(c.host, "a");
    assert_eq!(c.port, 81);
    assert_eq!(c.replication.client_id, "i");
    assert_eq!(c.engine, "rwlock");
}
