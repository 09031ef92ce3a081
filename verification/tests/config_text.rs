use suzent_sidecar::environment::backend_executable_path;
use suzent_sidecar::environment::build_environment;
use suzent_sidecar::errors::StartError;
use suzent_sidecar::frontend::port_injection_script;
use suzent_sidecar::health::health_check_url;
use suzent_sidecar::text::decimal_string;
use suzent_sidecar::text::join_path;

#[test]
fn decimal_strings_are_exact() {
    assert_eq!(decimal_string(0), "0");
    assert_eq!(decimal_string(7), "7");
    assert_eq!(decimal_string(10), "10");
    assert_eq!(decimal_string(8000), "8000");
    assert_eq!(decimal_string(65535), "65535");
}

#[test]
fn join_path_inserts_one_slash() {
    assert_eq!(join_path("/base", "name"), "/base/name");
    assert_eq!(join_path("", "name"), "/name");
}

#[test]
fn health_url_is_exact() {
    assert_eq!(health_check_url(8123), "http://127.0.0.1:8123/api/config");
}

#[test]
fn injection_script_is_exact() {
    assert_eq!(
        port_injection_script(4321),
        "window.__SUZENT_BACKEND_PORT__ = 4321;"
    );
}

#[test]
fn environment_has_all_keys_rooted_under_the_data_dir() {
    let base = "/Users/pat data/ünïcode";
    let cfg = build_environment(9000, base);
    assert_eq!(cfg.host, "127.0.0.1");
    assert_eq!(cfg.port_value, "9000");
    assert_eq!(cfg.app_data, base);
    assert_eq!(cfg.chats_db, format!("{base}/chats.db"));
    assert_eq!(cfg.lancedb_uri, format!("{base}/memory"));
    assert_eq!(cfg.sandbox_data, format!("{base}/sandbox-data"));
    assert_eq!(cfg.skills_dir, format!("{base}/skills"));

    let pairs = cfg.into_pairs();
    let keys: Vec<&str> = pairs.iter().map(|p| p.0.as_str()).collect();
    assert_eq!(
        keys,
        vec![
            "SUZENT_PORT",
            "SUZENT_HOST",
            "SUZENT_APP_DATA",
            "CHATS_DB_PATH",
            "LANCEDB_URI",
            "SANDBOX_DATA_PATH",
            "SKILLS_DIR",
        ]
    );
    for (key, value) in &pairs {
        if key != "SUZENT_PORT" && key != "SUZENT_HOST" {
            assert!(value.starts_with(base), "{key} not rooted: {value}");
            assert!(value.starts_with('/'), "{key} not absolute: {value}");
        }
    }
}

#[test]
fn backend_executable_path_follows_the_platform() {
    assert_eq!(
        backend_executable_path("/opt/shell/resources", false),
        "/opt/shell/resources/binaries/suzent-backend"
    );
    assert_eq!(
        backend_executable_path("/opt/shell/resources", true),
        "/opt/shell/resources/binaries/suzent-backend.exe"
    );
}

#[test]
fn error_messages_are_exact() {
    assert_eq!(
        StartError::Allocation("bind refused".to_string()).message(),
        "Failed to find available port: bind refused"
    );
    assert_eq!(
        StartError::Environment("Failed to create app data dir: denied".to_string()).message(),
        "Failed to create app data dir: denied"
    );
    assert_eq!(
        StartError::Spawn("no such file".to_string()).message(),
        "Failed to start backend: no such file"
    );
    assert_eq!(
        StartError::HealthCheck.message(),
        "Backend failed to start within 30 seconds"
    );
    assert_eq!(
        StartError::Lock("poisoned".to_string()).message(),
        "Lock error: poisoned"
    );
}
