use certifika::config::{format_log_line, level_allows, Config, ConfigError, LogLevel, StoreType};
use certifika::directory::Directory;
use certifika::error::{AcmeError, StoreError};
use certifika::storage::{FileStore, ObjectKind, VaultStore};
use certifika::{http_status_ok, http_user_agent, APP_NAME, APP_VERSION, HTTP_CLIENT_LIB};

#[test]
fn status_classes() {
    assert!(!http_status_ok(199));
    assert!(http_status_ok(200));
    assert!(http_status_ok(201));
    assert!(http_status_ok(299));
    assert!(!http_status_ok(300));
    assert!(!http_status_ok(404));
}

#[test]
fn user_agent_names_app_and_library() {
    assert_eq!(http_user_agent(), format!("{} {}/{}", APP_NAME, APP_VERSION, HTTP_CLIENT_LIB));
    assert_eq!(http_user_agent(), "certifika 0.1.0/ureq 2.12.1");
}

#[test]
fn file_store_paths() {
    let store = FileStore::init("/var/lib/certifika").unwrap();
    assert_eq!(
        store.path_for(ObjectKind::Directory, "alice@example.test"),
        "/var/lib/certifika/accounts/alice@example.test.dir"
    );
    assert_eq!(store.path_for(ObjectKind::KeyPair, "bob"), "/var/lib/certifika/accounts/bob.key");
    assert_eq!(store.path_for(ObjectKind::Account, "bob"), "/var/lib/certifika/accounts/bob.acc");
}

#[test]
fn vault_store_needs_address_and_token() {
    assert_eq!(
        VaultStore::init(None, Some("t".to_string()), "certifika").unwrap_err(),
        StoreError::Init
    );
    assert_eq!(
        VaultStore::init(Some("https://vault.test".to_string()), None, "certifika").unwrap_err(),
        StoreError::Init
    );
}

#[test]
fn vault_store_paths_and_bodies() {
    let store = VaultStore::init(
        Some("https://vault.test".to_string()),
        Some("s.token-1".to_string()),
        "certifika",
    )
    .unwrap();
    assert_eq!(store.token(), "s.token-1");
    let path = store.path_for(ObjectKind::KeyPair, "bob");
    assert_eq!(path, "certifika/accounts/bob.key");
    assert_eq!(store.url_for(&path), "https://vault.test/v1/secret/data/certifika/accounts/bob.key");
    assert_eq!(VaultStore::put_body(b"hello"), "{\"data\":{\"value\":\"aGVsbG8=\"}}");
    assert_eq!(VaultStore::put_body(&[0xfb, 0xff]), "{\"data\":{\"value\":\"+/8=\"}}");
}

#[test]
fn vault_value_decoding() {
    let body = "{\"request_id\":\"x\",\"data\":{\"data\":{\"value\":\"aGVsbG8=\"},\"metadata\":{}}}";
    assert_eq!(VaultStore::value_from_response(body), Ok(b"hello".to_vec()));
    assert_eq!(
        VaultStore::value_from_response("{\"data\":{}}"),
        Err(StoreError::NotFound)
    );
    assert_eq!(
        VaultStore::value_from_response("{\"data\":{\"data\":{\"value\":\"@@@\"}}}"),
        Err(StoreError::Base64Decode)
    );
}

#[test]
fn config_defaults() {
    let c = Config::parse(Some("/home/a".to_string()), None, None, None).unwrap();
    assert_eq!(c.base_dir, "/home/a/.config/certifika");
    assert_eq!(c.log_level, LogLevel::Warn);
    assert_eq!(c.store_type, StoreType::File);
}

#[test]
fn config_values() {
    let c = Config::parse(
        Some("/home/a".to_string()),
        Some("/srv/store".to_string()),
        Some("DEBUG".to_string()),
        Some("vault".to_string()),
    )
    .unwrap();
    assert_eq!(c.base_dir, "/srv/store");
    assert_eq!(c.log_level, LogLevel::Debug);
    assert_eq!(c.store_type, StoreType::Vault);
    let c = Config::parse(Some("/h".to_string()), None, Some("loud".to_string()), Some("file".to_string())).unwrap();
    assert_eq!(c.log_level, LogLevel::Info);
    let c = Config::parse(Some("/h".to_string()), None, Some("ERROR".to_string()), None).unwrap();
    assert_eq!(c.log_level, LogLevel::Error);
}

#[test]
fn config_errors() {
    assert_eq!(Config::parse(None, None, None, None), Err(ConfigError::MissingHome));
    assert_eq!(
        Config::parse(Some("/h".to_string()), None, None, Some("db".to_string())),
        Err(ConfigError::UnknownStoreType("db".to_string()))
    );
}

#[test]
fn log_lines() {
    assert_eq!(
        format_log_line(LogLevel::Info, "certifika::acme", "{\"op\": \"x\",\n\t\"n\": 1}"),
        Some("{\"level\":\"INFO\",\"message\":{\"op\":\"x\",\"n\":1}}".to_string())
    );
    assert_eq!(format_log_line(LogLevel::Info, "ureq::unit", "x"), None);
    assert_eq!(format_log_line(LogLevel::Trace, "certifika", "x"), None);
    assert_eq!(
        format_log_line(LogLevel::Error, "certifika", "a b"),
        Some("{\"level\":\"ERROR\",\"message\":ab}".to_string())
    );
}

#[test]
fn directory_lookup_and_record() {
    let doc = "{\"newNonce\":\"https://ca.test/nonce\",\"newAccount\":\"https://ca.test/acct\",\"meta\":{\"x\":1},\"n\":5}";
    let d = Directory::from_response("https://ca.test/dir".to_string(), 200, doc.to_string()).unwrap();
    assert_eq!(d.url_for("newNonce"), Some("https://ca.test/nonce".to_string()));
    assert_eq!(d.url_for("newOrder"), None);
    assert_eq!(d.url_for("meta"), None);
    assert_eq!(d.url_for("n"), None);
    let record = d.to_json();
    assert_eq!(record, format!("{{\"url\":\"https://ca.test/dir\",\"directory\":{}}}", doc));
    let back = Directory::from_json(&record).unwrap();
    assert_eq!(back.url(), "https://ca.test/dir");
    assert_eq!(back.url_for("newAccount"), Some("https://ca.test/acct".to_string()));
    assert_eq!(Directory::from_json("{\"directory\":{}}").unwrap_err(), AcmeError::CorruptStore);
}

#[test]
fn directory_rejects_bad_responses() {
    assert_eq!(
        Directory::from_response("u".to_string(), 503, "down".to_string()).unwrap_err(),
        AcmeError::BadDirectory("down".to_string())
    );
    let listed = Directory::from_response("u".to_string(), 200, "[1,2]".to_string()).unwrap();
    assert_eq!(listed.url_for("newNonce"), None);
    assert_eq!(
        Directory::from_response("u".to_string(), 200, "{not json".to_string()).unwrap_err(),
        AcmeError::BadDirectory("{not json".to_string())
    );
}

#[test]
fn level_filter() {
    assert!(level_allows(LogLevel::Warn, LogLevel::Error));
    assert!(level_allows(LogLevel::Warn, LogLevel::Warn));
    assert!(!level_allows(LogLevel::Warn, LogLevel::Info));
    assert!(level_allows(LogLevel::Debug, LogLevel::Debug));
    assert!(!level_allows(LogLevel::Debug, LogLevel::Trace));
}

#[test]
fn failure_messages() {
    assert_eq!(
        AcmeError::RegistrationFailed("{\"type\":\"x\"}".to_string()).message(),
        "registration failed: {\"type\":\"x\"}"
    );
    assert_eq!(AcmeError::MissingNonce.message(), "missing header: Replay-Nonce");
    assert_eq!(AcmeError::Store(StoreError::NotFound).message(), "store: not found");
    assert_eq!(AcmeError::OrderFailed("no".to_string()).message(), "order failed: no");
    assert_eq!(StoreError::File("denied".to_string()).message(), "file: denied");
}

#[test]
fn vault_value_round_trip() {
    for payload in [&b""[..], b"a", b"ab", b"abc", b"\x00\xff\x10\x80"] {
        let put = VaultStore::put_body(payload);
        let inner: serde_json::Value = serde_json::from_str(&put).unwrap();
        let body = format!("{{\"data\":{}}}", inner);
        assert_eq!(VaultStore::value_from_response(&body), Ok(payload.to_vec()));
    }
}
