use object_store::config::{
    default_host, default_physical_bucket, default_port, parse_port, BackendConfig, Config,
    ConfigError, ServerConfig, Settings,
};

fn settings(entries: &[(&str, &str)]) -> Settings {
    let mut s = Settings::new();
    for (k, v) in entries {
        s.set(k, v);
    }
    s
}

#[test]
fn defaults() {
    assert_eq!(default_host(), "127.0.0.1");
    assert_eq!(default_port(), 8080);
    assert_eq!(default_physical_bucket(), "object-store-data");
    let config = Config::default();
    assert_eq!(config.server, ServerConfig { host: "127.0.0.1".to_string(), port: 8080 });
    assert_eq!(
        config.backend,
        BackendConfig::Local {
            root_path: "./data".to_string(),
            physical_bucket: "object-store-data".to_string(),
        }
    );
}

#[test]
fn ports() {
    assert_eq!(parse_port("0"), Some(0));
    assert_eq!(parse_port("8080"), Some(8080));
    assert_eq!(parse_port("65535"), Some(65535));
    assert_eq!(parse_port("65536"), None);
    assert_eq!(parse_port("0008080"), Some(8080));
    assert_eq!(parse_port("99999999999999999999999"), None);
    assert_eq!(parse_port(""), None);
    assert_eq!(parse_port("+80"), None);
    assert_eq!(parse_port("-1"), None);
    assert_eq!(parse_port("80 "), None);
    assert_eq!(parse_port("8o"), None);
    assert_eq!(parse_port("８０"), None);
}

#[test]
fn settings_keep_the_last_value() {
    let mut s = Settings::new();
    assert_eq!(s.get("a"), None);
    s.set("a", "1");
    s.set("b", "2");
    s.set("a", "3");
    assert_eq!(s.get("a").map(|v| v.as_str()), Some("3"));
    assert_eq!(s.get("b").map(|v| v.as_str()), Some("2"));
    assert_eq!(s.get("c"), None);
}

#[test]
fn local_backend_from_the_environment() {
    let env = settings(&[("backend.type", "local"), ("backend.root_path", "/srv/objects")]);
    assert_eq!(
        Config::from_env(&env),
        Ok(Config {
            server: ServerConfig { host: "127.0.0.1".to_string(), port: 8080 },
            backend: BackendConfig::Local {
                root_path: "/srv/objects".to_string(),
                physical_bucket: "object-store-data".to_string(),
            },
        })
    );
    let env = settings(&[
        ("server.host", "0.0.0.0"),
        ("server.port", "9000"),
        ("backend.type", "local"),
        ("backend.root_path", "/srv/objects"),
        ("backend.physical_bucket", "main"),
    ]);
    assert_eq!(
        Config::from_env(&env),
        Ok(Config {
            server: ServerConfig { host: "0.0.0.0".to_string(), port: 9000 },
            backend: BackendConfig::Local {
                root_path: "/srv/objects".to_string(),
                physical_bucket: "main".to_string(),
            },
        })
    );
}

#[test]
fn environment_overrides_the_file() {
    let file = settings(&[
        ("server.host", "10.0.0.1"),
        ("server.port", "8000"),
        ("backend.type", "s3"),
        ("backend.region", "eu-west-1"),
        ("backend.physical_bucket", "from-file"),
    ]);
    let env = settings(&[("server.port", "9000"), ("backend.endpoint", "http://minio:9000")]);
    assert_eq!(
        Config::from_file(&file, &env),
        Ok(Config {
            server: ServerConfig { host: "10.0.0.1".to_string(), port: 9000 },
            backend: BackendConfig::S3 {
                region: "eu-west-1".to_string(),
                physical_bucket: "from-file".to_string(),
                endpoint: Some("http://minio:9000".to_string()),
            },
        })
    );
    assert_eq!(
        Config::from_file(&file, &Settings::new()),
        Ok(Config {
            server: ServerConfig { host: "10.0.0.1".to_string(), port: 8000 },
            backend: BackendConfig::S3 {
                region: "eu-west-1".to_string(),
                physical_bucket: "from-file".to_string(),
                endpoint: None,
            },
        })
    );
    assert_eq!(
        Config::from_env(&env),
        Err(ConfigError::Missing("backend.type".to_string()))
    );
}

#[test]
fn gcs_and_azure_backends() {
    let env = settings(&[("backend.type", "gcs"), ("backend.physical_bucket", "g")]);
    assert_eq!(
        Config::from_env(&env).map(|c| c.backend),
        Ok(BackendConfig::Gcs { physical_bucket: "g".to_string() })
    );
    let env = settings(&[
        ("backend.type", "azure"),
        ("backend.account", "acct"),
        ("backend.access_key", "SECRET-REDACTED"),
        ("backend.physical_bucket", "box"),
    ]);
    assert_eq!(
        Config::from_env(&env).map(|c| c.backend),
        Ok(BackendConfig::Azure {
            account: "acct".to_string(),
            access_key: "SECRET-REDACTED".to_string(),
            physical_bucket: "box".to_string(),
        })
    );
}

#[test]
fn configuration_errors() {
    let check = |entries: &[(&str, &str)], error: ConfigError| {
        assert_eq!(Config::from_env(&settings(entries)), Err(error));
    };
    check(&[], ConfigError::Missing("backend.type".to_string()));
    check(&[("backend.type", "local")], ConfigError::Missing("backend.root_path".to_string()));
    check(&[("backend.type", "s3")], ConfigError::Missing("backend.region".to_string()));
    check(
        &[("backend.type", "s3"), ("backend.region", "r")],
        ConfigError::Missing("backend.physical_bucket".to_string()),
    );
    check(&[("backend.type", "gcs")], ConfigError::Missing("backend.physical_bucket".to_string()));
    check(&[("backend.type", "azure")], ConfigError::Missing("backend.account".to_string()));
    check(
        &[("backend.type", "azure"), ("backend.account", "a")],
        ConfigError::Missing("backend.access_key".to_string()),
    );
    check(
        &[("backend.type", "azure"), ("backend.account", "a"), ("backend.access_key", "k")],
        ConfigError::Missing("backend.physical_bucket".to_string()),
    );
    check(&[("backend.type", "Local")], ConfigError::UnknownBackend("Local".to_string()));
    check(&[("backend.type", "ftp")], ConfigError::UnknownBackend("ftp".to_string()));
    check(
        &[("server.port", "http"), ("backend.type", "ftp")],
        ConfigError::InvalidPort("http".to_string()),
    );
    check(&[("server.port", "70000")], ConfigError::InvalidPort("70000".to_string()));
    assert_eq!(
        ConfigError::Missing("backend.type".to_string()).message(),
        "missing setting: backend.type"
    );
    assert_eq!(ConfigError::InvalidPort("x".to_string()).message(), "invalid port: x");
    assert_eq!(
        ConfigError::UnknownBackend("ftp".to_string()).message(),
        "unknown backend type: ftp"
    );
}
