use registrar_node::config::{
    default_controller_authorization_nonce_file, default_keys_dir, default_records_dir,
    default_registration_credential_query_nonce_file, default_root_did,
    default_stats_report_interval_seconds, resolve_database_url, resolve_paths, resolve_relative, PathRules,
    validate_stats_report_config, PathConfig, StatsReportConfig,
};
use registrar_node::error::ApiError;
use registrar_node::node::{
    api_root_authorization, api_status, health, root_authorization_url, RootProbe,
};
use registrar_node::query_path::{percent_encode_path_segment, registration_credential_query_path};
use registrar_node::storage::{
    choose_store, is_record_file, kept_records, record_slot, write_slot, RecordFile, RecordStore,
};
use registrar_node::text::{
    after_prefix, characters, comes_before, is_blank, is_trimmed, joined, occurs, same_text,
    trim_suffixes,
};
use registrar_node::upstream::publish_url;
use serde_json::Value;

fn json(text: &str) -> Value {
    serde_json::from_str(text).unwrap()
}

#[test]
fn texts_are_compared_by_code_point() {
    assert!(comes_before("", "a"));
    assert!(comes_before("a", "b"));
    assert!(comes_before("a", "aa"));
    assert!(comes_before("Z", "a"));
    assert!(comes_before("\u{FFFD}", "\u{10000}"));
    assert!(!comes_before("a", "a"));
    assert!(!comes_before("", ""));
    for (left, right) in [("did:oan:a", "did:oan:b"), ("b", "\u{e9}"), ("\u{ffff}", "\u{10ffff}")] {
        assert_eq!(comes_before(left, right), left < right);
        assert_eq!(comes_before(right, left), right < left);
    }
}

#[test]
fn texts_are_trimmed_searched_and_joined() {
    assert!(is_blank("") && is_blank(" \t\u{2003}\u{a0}"));
    assert!(!is_blank(" x "));
    assert!(is_trimmed("") && is_trimmed("a b"));
    assert!(!is_trimmed(" a") && !is_trimmed("a\u{2028}"));
    for code in 0..=0x3001u32 {
        let Some(c) = char::from_u32(code) else { continue };
        let text = c.to_string();
        assert_eq!(is_blank(&text), text.trim().is_empty(), "{code:x}");
    }
    assert!(occurs("..", "a..b") && occurs("", "") && occurs("b", "ab"));
    assert!(!occurs("..", "a.b.") && !occurs("abc", "ab"));
    assert_eq!(after_prefix("sqlite:x", "sqlite:"), Some("x".to_string()));
    assert_eq!(after_prefix("sqlite", "sqlite:"), None);
    assert_eq!(after_prefix("postgres:x", "sqlite:"), None);
    assert_eq!(trim_suffixes("http://root//", "/"), "http://root");
    assert_eq!(trim_suffixes("a.json.json", ".json"), "a");
    assert_eq!(trim_suffixes("a", ""), "a");
    assert_eq!(joined("a", "b"), "ab");
    assert!(same_text("\u{e9}", "\u{e9}") && !same_text("e", "\u{e9}"));
    assert_eq!(characters("a\u{10000}"), vec!['a', '\u{10000}']);
}

#[test]
fn segments_are_percent_encoded() {
    assert_eq!(percent_encode_path_segment("AZaz09-_.~"), "AZaz09-_.~");
    assert_eq!(percent_encode_path_segment("did:oan:A b"), "did%3Aoan%3AA%20b");
    assert_eq!(percent_encode_path_segment("%/\u{e9}\u{4e2d}"), "%25%2F%C3%A9%E4%B8%AD");
    assert_eq!(percent_encode_path_segment(""), "");
    assert_eq!(
        registration_credential_query_path("did:oan:SKLG:x"),
        "/resources/did%3Aoan%3ASKLG%3Ax/registration-credential"
    );
}

#[test]
fn different_resources_have_different_query_paths() {
    let paths: Vec<String> = ["a:b", "a%3Ab", "a/b", "A:b", "a:b "]
        .iter()
        .map(|did| registration_credential_query_path(did))
        .collect();
    for i in 0..paths.len() {
        for j in 0..i {
            assert_ne!(paths[i], paths[j]);
        }
    }
}

#[test]
fn defaults_are_those_of_the_sample_layout() {
    assert_eq!(default_records_dir(), "../../data/registrar/resource-records");
    assert_eq!(default_keys_dir(), "../../data/registrar/keys");
    assert_eq!(
        default_controller_authorization_nonce_file(),
        "../../data/registrar/controller-authorization-nonces.json"
    );
    assert_eq!(
        default_registration_credential_query_nonce_file(),
        "../../data/registrar/registration-credential-query-nonces.json"
    );
    assert_eq!(default_root_did(), "did:oan:INRT:7YpQm9Kx2VnRb6Ts3WfHa4Cd5Ej8LgNz");
    assert_eq!(default_stats_report_interval_seconds(), 60);
    let config = StatsReportConfig::default();
    assert!(!config.enabled && config.interval_seconds == 60);
    assert!(config.node_id.is_none() && config.endpoint.is_none() && config.token.is_none());
}

fn report_config(node_id: &str, endpoint: &str, token: &str, seconds: u64) -> StatsReportConfig {
    StatsReportConfig {
        enabled: true,
        node_id: Some(node_id.to_string()),
        endpoint: Some(endpoint.to_string()),
        token: Some(token.to_string()),
        interval_seconds: seconds,
    }
}

#[test]
fn report_configurations_are_checked_when_enabled() {
    assert_eq!(validate_stats_report_config(&StatsReportConfig::default()), Ok(()));
    let complaint = |config: StatsReportConfig| validate_stats_report_config(&config).unwrap_err();
    assert_eq!(validate_stats_report_config(&report_config("n", "e", "t", 1)), Ok(()));
    assert_eq!(
        complaint(report_config(" ", "e", "t", 1)),
        "stats_report.node_id is required when enabled"
    );
    assert_eq!(
        complaint(report_config("n", "", "t", 1)),
        "stats_report.endpoint is required when enabled"
    );
    assert_eq!(
        complaint(report_config("n", "e", "\t", 1)),
        "stats_report.token is required when enabled"
    );
    assert_eq!(
        complaint(report_config("n", "e", "t", 0)),
        "stats_report.interval_seconds must be greater than 0"
    );
    let mut missing = report_config("n", "e", "t", 1);
    missing.node_id = None;
    assert_eq!(complaint(missing), "stats_report.node_id is required when enabled");
}

#[test]
fn paths_are_resolved_like_those_of_the_standard_library() {
    for base in ["", ".", "/etc/node", "/etc/node/", "conf"] {
        for path in ["", "data", "../data", "/var/data", "a/b.json"] {
            let expected = std::path::Path::new(base).join(path);
            let expected = expected.display().to_string();
            assert_eq!(resolve_relative(PathRules::Native, base, path), expected);
            if std::path::MAIN_SEPARATOR == '/' {
                assert_eq!(resolve_relative(PathRules::Posix, base, path), expected);
            }
        }
    }
    let once = resolve_relative(PathRules::Posix, "/etc/node", "data");
    assert_eq!(once, "/etc/node/data");
    assert_eq!(resolve_relative(PathRules::Posix, "/etc/node", &once), once);
    let native = resolve_relative(PathRules::Native, "conf", "data");
    assert_eq!(native, format!("conf{}data", std::path::MAIN_SEPARATOR));
}

#[test]
fn database_urls_are_resolved_for_sqlite_alone() {
    assert_eq!(resolve_database_url(PathRules::Posix, "/etc", "sqlite://db"), "sqlite:/etc/db");
    assert_eq!(resolve_database_url(PathRules::Posix, "/etc", "sqlite:db"), "sqlite:/etc/db");
    assert_eq!(resolve_database_url(PathRules::Posix, "/etc", "sqlite:///db"), "sqlite:/db");
    assert_eq!(resolve_database_url(PathRules::Posix, "/etc", "postgres://host/db"), "postgres://host/db");
    let once = resolve_database_url(PathRules::Posix, "/etc", "sqlite:db");
    assert_eq!(resolve_database_url(PathRules::Posix, "/etc", &once), once);
    assert_eq!(
        resolve_database_url(PathRules::Native, "conf", "sqlite:db"),
        format!("sqlite:conf{}db", std::path::MAIN_SEPARATOR)
    );
    assert_eq!(resolve_database_url(PathRules::Native, "conf", "postgres:db"), "postgres:db");
    let paths = resolve_paths(
        PathRules::Posix,
        "/etc",
        PathConfig {
            data_dir: "data".to_string(),
            records_dir: "/records".to_string(),
            keys_dir: "keys".to_string(),
            controller_authorization_nonce_file: "a.json".to_string(),
            registration_credential_query_nonce_file: "b.json".to_string(),
            database_url: Some("sqlite:db".to_string()),
        },
    );
    assert_eq!(paths.data_dir, "/etc/data");
    assert_eq!(paths.records_dir, "/records");
    assert_eq!(paths.keys_dir, "/etc/keys");
    assert_eq!(paths.controller_authorization_nonce_file, "/etc/a.json");
    assert_eq!(paths.registration_credential_query_nonce_file, "/etc/b.json");
    assert_eq!(paths.database_url.as_deref(), Some("sqlite:/etc/db"));
}

#[test]
fn stores_are_chosen_by_database_url() {
    let choose = |url: &str| choose_store(&Some(url.to_string()));
    assert_eq!(choose_store(&None), Ok(RecordStore::Files));
    assert_eq!(choose(""), Ok(RecordStore::Files));
    assert_eq!(choose("sqlite:db"), Ok(RecordStore::Sqlite));
    assert_eq!(choose("sqlite://db"), Ok(RecordStore::Sqlite));
    assert_eq!(choose("postgres://host/db"), Ok(RecordStore::Postgres));
    assert_eq!(choose("postgresql://host/db"), Ok(RecordStore::Postgres));
    assert_eq!(choose("sqlite://"), Err("database path is empty".to_string()));
    assert_eq!(choose("mysql://db"), Err("unsupported database url scheme".to_string()));
}

#[test]
fn records_are_kept_under_their_did() {
    let slot = record_slot("did:oan:SKLG:x");
    assert_eq!(slot.namespace, "registrar.resource_records");
    assert_eq!(slot.key, "did:oan:SKLG:x");
    assert_eq!(slot.file, "resource-records/did_oan_SKLG_x.json");
    let slot = write_slot(&json("{\"resourceDid\": \"did:oan:SKLG:y\"}")).unwrap();
    assert_eq!(slot.key, "did:oan:SKLG:y");
    assert_eq!(slot.file, "resource-records/did_oan_SKLG_y.json");
    let err = write_slot(&json("{\"resourceDid\": 7}")).unwrap_err();
    assert_eq!((err.status, err.message.as_str()), (400, "resource_did_missing"));
    assert_ne!(record_slot("a:b").file, record_slot("a:c").file);
}

#[test]
fn records_in_files_come_from_the_index_or_the_directory() {
    for name in ["a.json", "a.b.json", "..json", ".json", "json", "a.JSON", "a.json.bak", "a."] {
        let expected = std::path::Path::new(name).extension().and_then(|e| e.to_str());
        assert_eq!(is_record_file(name), expected == Some("json"), "{name}");
    }
    let file = |name: &str, value: Option<&str>| RecordFile {
        name: name.to_string(),
        value: value.map(json),
    };
    let files = vec![
        file("a.json", Some("1")),
        file("b.txt", Some("2")),
        file("c.json", None),
        file("d.json", Some("3")),
    ];
    assert_eq!(kept_records(None, &files), vec![json("1"), json("3")]);
    assert_eq!(kept_records(Some(vec![json("9")]), &files), vec![json("9")]);
}

#[test]
fn the_node_describes_itself() {
    assert_eq!(
        health("did:oan:AGRG:x"),
        json("{\"status\": \"ok\", \"nodeType\": \"registrar\", \"did\": \"did:oan:AGRG:x\"}")
    );
    let typed = oan_protocol::HealthResponse {
        status: "ok".to_string(),
        node_type: "registrar".to_string(),
        did: Some("did:oan:AGRG:x".to_string()),
    };
    assert_eq!(health("did:oan:AGRG:x"), serde_json::to_value(typed).unwrap());
    let status = api_status("did:oan:AGRG:x", "http://root", 3);
    assert_eq!(
        status,
        json(
            "{\"registrarDid\": \"did:oan:AGRG:x\", \"rootEndpoint\": \"http://root\", \
              \"resourceRecordCount\": 3, \"protocolVersion\": \"oan-resource-2026\"}"
        )
    );
    assert_eq!(status["protocolVersion"], oan_protocol::OAN_RESOURCE_PROTOCOL_VERSION);
    assert_eq!(
        publish_url("http://root"),
        format!("http://root{}", oan_protocol::PATH_ROOT_RESOURCES_VERIFY_AND_PUBLISH)
    );
}

#[test]
fn root_is_asked_about_the_registrar() {
    assert_eq!(root_authorization_url("http://root//", "did:x"), "http://root/root/registrars/did:x");
    let body = |probe: RootProbe| api_root_authorization("did:x", "http://root/", probe);
    assert_eq!(
        body(RootProbe::Answered(Some(json("{\"status\": \"active\"}")))),
        json(
            "{\"registrarDid\": \"did:x\", \"rootEndpoint\": \"http://root/\", \
              \"rootReachable\": true, \"authorization\": {\"status\": \"active\"}}"
        )
    );
    assert_eq!(body(RootProbe::Answered(None))["authorization"], json("{}"));
    assert_eq!(
        body(RootProbe::Rejected(404)),
        json(
            "{\"registrarDid\": \"did:x\", \"rootEndpoint\": \"http://root/\", \
              \"rootReachable\": true, \"status\": \"unknown\", \"rootStatusCode\": 404}"
        )
    );
    assert_eq!(
        body(RootProbe::Unreachable("refused".to_string())),
        json(
            "{\"registrarDid\": \"did:x\", \"rootEndpoint\": \"http://root/\", \
              \"rootReachable\": false, \"error\": \"refused\"}"
        )
    );
}

#[test]
fn refusals_carry_a_status_and_a_message() {
    let refusals = [
        (ApiError::bad_request("m"), 400),
        (ApiError::unauthorized("m"), 401),
        (ApiError::forbidden("m"), 403),
        (ApiError::not_found("m"), 404),
        (ApiError::internal("m"), 500),
    ];
    for (error, status) in refusals {
        assert_eq!(error.status, status);
        assert_eq!(error.message, "m");
        assert_eq!(error.body(), json("{\"error\": \"m\"}"));
    }
}
