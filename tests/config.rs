use jellyfin_discovery::config::{
    config_file_name, sample_config, Config, ConfigError, ServerConfig, SAMPLE_PORT,
};
use jellyfin_discovery::failure::Fatal;

#[test]
fn server_config_new_keeps_fields() {
    let s = ServerConfig::new("http://a", "b", "c");
    assert_eq!(s.url, "http://a");
    assert_eq!(s.id, "b");
    assert_eq!(s.name, "c");
}

#[test]
fn config_new_sets_schema_version() {
    let c = Config::new(1234, vec![ServerConfig::new("u", "i", "n")]);
    assert_eq!(c.version, "1");
    assert_eq!(c.port, 1234);
    assert_eq!(c.server.len(), 1);
    assert_eq!(c.server[0].id, "i");
}

#[test]
fn sample_config_is_the_bootstrap_file() {
    let c = sample_config();
    assert_eq!(c.version, "1");
    assert_eq!(c.port, 7359);
    assert_eq!(SAMPLE_PORT, 7359);
    assert_eq!(c.server.len(), 1);
    assert_eq!(c.server[0].url, "http://jellyfin-test.local");
    assert_eq!(c.server[0].id, "CHANGEME");
    assert_eq!(c.server[0].name, "Test Jellyfin Server");
}

#[test]
fn file_name_defaults() {
    assert_eq!(config_file_name(None), "discover.toml");
}

#[test]
fn file_name_override_wins() {
    assert_eq!(config_file_name(Some("/etc/jdu.toml".to_string())), "/etc/jdu.toml");
}

#[test]
fn config_errors_map_to_their_kinds() {
    let de = toml::from_str::<toml::Table>("port = = 1").unwrap_err();
    assert_eq!(ConfigError::Derserialize(de).fatal(), Fatal::ConfigDeserialize);
    let ser = <toml::ser::Error as serde::ser::Error>::custom("unsupported");
    assert_eq!(ConfigError::Serialize(ser).fatal(), Fatal::ConfigSerialize);
    let io = std::io::Error::new(std::io::ErrorKind::PermissionDenied, "denied");
    assert_eq!(ConfigError::Io(io).fatal(), Fatal::ConfigIo);
}

#[test]
fn exit_codes_are_distinct_and_nonzero() {
    let all = [
        Fatal::ConfigDeserialize,
        Fatal::ConfigSerialize,
        Fatal::ConfigIo,
        Fatal::Bind,
        Fatal::Receive,
        Fatal::ResponseSerialize,
        Fatal::Send,
    ];
    let codes: Vec<i32> = all.iter().map(|f| f.exit_code()).collect();
    assert_eq!(codes, vec![100, 105, 106, 101, 102, 103, 104]);
    for (i, a) in codes.iter().enumerate() {
        assert_ne!(*a, 0);
        for b in &codes[i + 1..] {
            assert_ne!(a, b);
        }
    }
}
