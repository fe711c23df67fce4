use my_file_cloud_server::database::DatabaseConfig;
use my_file_cloud_server::env::{parse_config, parse_decimal, ConfigError, EnvValues, EnvVar};

fn some(s: &str) -> Option<String> {
    Some(s.to_string())
}

fn mock_env() -> EnvValues {
    EnvValues {
        database_mode: some("mock"),
        database_url: None,
        db_max_connections: None,
        cloud_root_directory: some("/srv/cloud"),
        log_directory: some("/var/log/cloud"),
        webserver_port: some("8000"),
        jwt_secret: some("secret"),
        client_origin: some("http://localhost:8080"),
    }
}

#[test]
fn decimal_numbers_parse_like_std() {
    for s in ["0", "+12", "65535", "65536", "", "+", "-1", "1a", " 1", "007"] {
        assert_eq!(parse_decimal(s, u16::MAX as u64), s.parse::<u16>().ok().map(|v| v as u64), "{s:?}");
    }
    for s in ["4294967295", "4294967296", "99999999999999999999", "+4294967295"] {
        assert_eq!(parse_decimal(s, u32::MAX as u64), s.parse::<u32>().ok().map(|v| v as u64), "{s:?}");
    }
}

#[test]
fn a_mock_configuration_is_read() {
    let c = parse_config(mock_env()).ok().unwrap();
    assert!(matches!(c.database_config, DatabaseConfig::Mock));
    assert_eq!(c.cloud_root_directory, "/srv/cloud");
    assert_eq!(c.log_directory, "/var/log/cloud");
    assert_eq!(c.webserver_port, 8000);
    assert_eq!(c.jwt_secret, "secret");
    assert_eq!(c.client_origin, "http://localhost:8080");
}

#[test]
fn a_mysql_configuration_is_read() {
    let mut env = mock_env();
    env.database_mode = some("mysql");
    env.database_url = some("mysql://db/cloud");
    env.db_max_connections = some("5");
    match parse_config(env).ok().unwrap().database_config {
        DatabaseConfig::MySQL(m) => {
            assert_eq!(m.database_url, "mysql://db/cloud");
            assert_eq!(m.max_connections, 5);
        }
        DatabaseConfig::Mock => panic!(),
    }
}

#[test]
fn configuration_failures_come_in_order() {
    let mut env = mock_env();
    env.database_mode = None;
    assert!(matches!(parse_config(env), Err(ConfigError::Missing(EnvVar::DatabaseMode))));
    let mut env = mock_env();
    env.database_mode = some("postgres");
    assert!(matches!(parse_config(env), Err(ConfigError::UnknownDatabaseMode(ref m)) if m == "postgres"));
    let mut env = mock_env();
    env.database_mode = some("mysql");
    assert!(matches!(parse_config(env), Err(ConfigError::Missing(EnvVar::DatabaseUrl))));
    let mut env = mock_env();
    env.database_mode = some("mysql");
    env.database_url = some("u");
    env.db_max_connections = some("many");
    assert!(matches!(parse_config(env), Err(ConfigError::NotANumber(EnvVar::DbMaxConnections))));
    let mut env = mock_env();
    env.webserver_port = some("80000");
    assert!(matches!(parse_config(env), Err(ConfigError::NotANumber(EnvVar::WebserverPort))));
    let mut env = mock_env();
    env.cloud_root_directory = None;
    env.jwt_secret = None;
    assert!(matches!(parse_config(env), Err(ConfigError::Missing(EnvVar::CloudRootDirectory))));
    let mut env = mock_env();
    env.client_origin = None;
    assert!(matches!(parse_config(env), Err(ConfigError::Missing(EnvVar::ClientOrigin))));
}
