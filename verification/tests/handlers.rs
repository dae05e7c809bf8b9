use nysa::ota::{OtaError, OtaStep};
use nysa::startup::{after_failed_start, StartRetry, MAX_START_ATTEMPTS};
use nysa::status::{status_json, status_reply};
use nysa::storage::{
    check_wifi_config, clear_writes, stored_ssid_usable, wifi_config_from_stored,
    wifi_config_writes, StorageError, KEY_WIFI_PASS, KEY_WIFI_SSID,
};
use nysa::text::{chars_of, contains_char, contains_str, ends_with_str, str_eq};
use nysa::web::{
    authorize, check_auth, forget_reply, get_embedded_file, is_default_ota_key, ota_reply,
    provisioning_body, provisioning_credentials, provisioning_saved, requires_auth, root_page,
    serve_plan, static_file_request, EmbeddedFiles, Endpoint, ServePlan, CONNECTED_PATH,
    INDEX_PATH,
};
use nysa::{sanitize_path, OtaHandler, WifiConfig};
use std::collections::HashMap;

fn files() -> EmbeddedFiles {
    EmbeddedFiles {
        index: "<html>setup</html>",
        connected: "<html>connected</html>",
        not_found: "<html>missing</html>",
    }
}

fn config(ssid: &str, password: &str) -> WifiConfig {
    WifiConfig { ssid: ssid.to_string(), password: password.to_string() }
}

// --- text helpers ---

#[test]
fn text_helpers_search_characters() {
    let s = chars_of("héllo..wörld");
    assert_eq!(s.len(), 12);
    assert!(contains_str(&s, ".."));
    assert!(contains_str(&s, "wörld"));
    assert!(!contains_str(&s, "world"));
    assert!(ends_with_str(&s, "rld"));
    assert!(!ends_with_str(&s, "héllo"));
    assert!(contains_char(&s, 'ö'));
    assert!(!contains_char(&s, '\0'));
    assert!(str_eq("abc", "abc"));
    assert!(!str_eq("abc", "abd"));
    assert!(!str_eq("abc", "ab"));
}

// --- sanitize_path: lowercasing and confinement ---

#[test]
fn path_rejects_uppercase_encoded_traversal() {
    assert_eq!(sanitize_path("/%2E%2E/etc/passwd"), None);
    assert_eq!(sanitize_path("/.%2E/etc/passwd"), None);
    assert_eq!(sanitize_path("/%2E./etc/passwd"), None);
}

#[test]
fn path_allows_single_encoded_dot() {
    assert_eq!(sanitize_path("/a%2eb.html"), Some("/www/a%2eb.html".to_string()));
}

#[test]
fn path_accepted_is_confined_under_www() {
    for uri in ["/", "/x.css", "/a/b/c.js", "/.hidden", "/./x"] {
        let p = sanitize_path(uri).unwrap();
        assert!(p.starts_with("/www"));
        assert!(!p.contains(".."));
        assert!(!p.contains('\0'));
    }
}

// --- storage ---

#[test]
fn storage_check_matches_web_validation() {
    let cases = [
        ("", "password123"),
        (&*"a".repeat(33), "password123"),
        ("MyNet", "short"),
        ("MyNet", &*"a".repeat(64)),
        ("MyNet", ""),
        ("MyNet", "12345678"),
    ];
    for (ssid, pw) in cases {
        assert_eq!(
            check_wifi_config(ssid, pw).is_ok(),
            nysa::validate_wifi_credentials(ssid, pw).is_ok()
        );
    }
}

#[test]
fn storage_errors_name_the_field() {
    assert_eq!(check_wifi_config("", "password123"), Err(StorageError::InvalidSsidLength));
    assert_eq!(
        check_wifi_config(&"a".repeat(33), "password123"),
        Err(StorageError::InvalidSsidLength)
    );
    assert_eq!(check_wifi_config("MyNet", "short"), Err(StorageError::InvalidPasswordLength));
    assert_eq!(StorageError::InvalidSsidLength.message(), "Invalid SSID length");
    assert_eq!(StorageError::InvalidPasswordLength.message(), "Invalid password length");
}

#[test]
fn storage_ssid_length_counts_bytes() {
    // 17 characters, 34 bytes
    let ssid = "é".repeat(17);
    assert!(ssid.chars().count() < 32 && ssid.len() > 32);
    assert_eq!(check_wifi_config(&ssid, ""), Err(StorageError::InvalidSsidLength));
}

#[test]
fn storage_saved_credentials_read_back() {
    let mut nvs: HashMap<String, String> = HashMap::new();
    nvs.insert(KEY_WIFI_SSID.to_string(), "Old".to_string());
    for w in wifi_config_writes("HomeNet", "hunter2hunter2").unwrap() {
        nvs.insert(w.key.to_string(), w.value);
    }
    let ssid = nvs.get(KEY_WIFI_SSID).cloned();
    assert!(stored_ssid_usable(ssid.as_deref()));
    let cfg = wifi_config_from_stored(ssid, nvs.get(KEY_WIFI_PASS).cloned()).unwrap();
    assert_eq!(cfg.ssid, "HomeNet");
    assert_eq!(cfg.password, "hunter2hunter2");
}

#[test]
fn storage_cleared_credentials_absent() {
    let mut nvs: HashMap<String, String> = HashMap::new();
    for w in wifi_config_writes("HomeNet", "").unwrap() {
        nvs.insert(w.key.to_string(), w.value);
    }
    for w in clear_writes() {
        nvs.insert(w.key.to_string(), w.value);
    }
    let ssid = nvs.get(KEY_WIFI_SSID).cloned();
    assert!(!stored_ssid_usable(ssid.as_deref()));
    assert!(wifi_config_from_stored(ssid, nvs.get(KEY_WIFI_PASS).cloned()).is_none());
}

#[test]
fn storage_refused_credentials_write_nothing() {
    assert!(wifi_config_writes("", "password123").is_err());
    assert!(wifi_config_writes("MyNet", "short").is_err());
}

#[test]
fn storage_missing_values_give_no_config() {
    assert!(wifi_config_from_stored(None, Some("pw".to_string())).is_none());
    assert!(wifi_config_from_stored(Some("Net".to_string()), None).is_none());
    assert!(wifi_config_from_stored(Some(String::new()), Some("pw".to_string())).is_none());
    let cfg = wifi_config_from_stored(Some("Net".to_string()), Some(String::new())).unwrap();
    assert_eq!(cfg.ssid, "Net");
    assert_eq!(cfg.password, "");
    assert!(!stored_ssid_usable(None));
    assert!(!stored_ssid_usable(Some("")));
    assert!(stored_ssid_usable(Some("Net")));
}

// --- OTA stream ---

#[test]
fn ota_missing_partition() {
    let ota = OtaHandler::new();
    assert_eq!(ota.begin_fs_update(None).err(), Some(OtaError::PartitionNotFound));
}

#[test]
fn ota_writes_chunks_contiguously() {
    let ota = OtaHandler::new();
    let mut s = ota.begin_fs_update(Some(10000)).ok().unwrap();
    assert_eq!(s.partition_size(), 10000);
    assert_eq!(s.accept_read(4096), Ok(OtaStep::Write { offset: 0, len: 4096 }));
    assert_eq!(s.accept_read(4096), Ok(OtaStep::Write { offset: 4096, len: 4096 }));
    assert_eq!(s.accept_read(1808), Ok(OtaStep::Write { offset: 8192, len: 1808 }));
    assert_eq!(s.written(), 10000);
    assert_eq!(s.accept_read(0), Ok(OtaStep::Finished { total: 10000 }));
}

#[test]
fn ota_refuses_image_larger_than_partition() {
    let ota = OtaHandler::new();
    let mut s = ota.begin_fs_update(Some(5000)).ok().unwrap();
    assert_eq!(s.accept_read(4096), Ok(OtaStep::Write { offset: 0, len: 4096 }));
    assert_eq!(
        s.accept_read(4096),
        Err(OtaError::ImageTooLarge { partition_size: 5000 })
    );
    assert_eq!(s.written(), 4096);
}

// --- authentication ---

#[test]
fn auth_requires_exact_key() {
    assert!(check_auth(Some("secret-key"), "secret-key"));
    assert!(!check_auth(Some("secret-kez"), "secret-key"));
    assert!(!check_auth(Some(""), "secret-key"));
    assert!(!check_auth(None, "secret-key"));
}

#[test]
fn guarded_endpoints_answer_unauthorized() {
    for e in [Endpoint::ApiStatus, Endpoint::ForgetWifi, Endpoint::FilesystemOta] {
        assert!(requires_auth(e));
        let r = authorize(e, Some("wrong"), "secret-key").unwrap();
        assert_eq!(r.status, 401);
        assert_eq!(r.body, "Unauthorized");
        assert!(!r.reboot);
        assert!(authorize(e, None, "secret-key").is_some());
        assert!(authorize(e, Some("secret-key"), "secret-key").is_none());
    }
}

#[test]
fn open_endpoints_need_no_key() {
    for e in [Endpoint::Root, Endpoint::ProvisionWifi, Endpoint::StatusPage, Endpoint::StaticFile] {
        assert!(!requires_auth(e));
        assert!(authorize(e, None, "secret-key").is_none());
    }
}

#[test]
fn default_key_detected() {
    assert!(is_default_ota_key("change-me-in-production"));
    assert!(!is_default_ota_key("my-super-secret-key"));
}

// --- provisioning ---

#[test]
fn provisioning_read_failure() {
    let r = provisioning_body(None).unwrap_err();
    assert_eq!(r.status, 400);
    assert_eq!(r.body, "Failed to read request");
}

#[test]
fn provisioning_invalid_utf8() {
    let bytes = [b'{', 0xff, 0xfe, b'}'];
    let r = provisioning_body(Some(&bytes)).unwrap_err();
    assert_eq!(r.status, 400);
    assert_eq!(r.body, "Invalid UTF-8");
}

#[test]
fn provisioning_valid_utf8_is_text() {
    let bytes = "{\"ssid\":\"Café\"}".as_bytes();
    assert_eq!(provisioning_body(Some(bytes)).ok(), Some("{\"ssid\":\"Café\"}"));
}

#[test]
fn provisioning_parse_error_is_sanitized() {
    let r = provisioning_credentials(Err(
        "missing field `password` at line 1 column 23".to_string(),
    ))
    .err()
    .unwrap();
    assert_eq!(r.status, 400);
    assert_eq!(r.body, "Invalid request format");
    let r = provisioning_credentials(Err("EOF while parsing".to_string())).err().unwrap();
    assert_eq!(r.body, "Request processing failed");
}

#[test]
fn provisioning_invalid_credentials_not_saved() {
    let r = provisioning_credentials(Ok(config("", "password123"))).err().unwrap();
    assert_eq!(r.status, 400);
    assert_eq!(r.body, "SSID cannot be empty");
    let r = provisioning_credentials(Ok(config("MyNet", "short"))).err().unwrap();
    assert_eq!(r.body, "Password must be 8-63 characters");
    let r = provisioning_credentials(Ok(config(&"a".repeat(33), ""))).err().unwrap();
    assert_eq!(r.body, "SSID must be 32 characters or fewer");
}

#[test]
fn provisioning_valid_credentials_kept() {
    let c = provisioning_credentials(Ok(config("MyNetwork", "password123"))).ok().unwrap();
    assert_eq!(c.ssid, "MyNetwork");
    assert_eq!(c.password, "password123");
}

#[test]
fn provisioning_save_outcomes() {
    let ok = provisioning_saved(true);
    assert_eq!((ok.status, ok.body.as_str(), ok.reboot), (200, "WiFi credentials saved. Rebooting...", true));
    let bad = provisioning_saved(false);
    assert_eq!((bad.status, bad.body.as_str(), bad.reboot), (500, "Failed to save configuration", false));
}

#[test]
fn forget_and_ota_outcomes() {
    let r = forget_reply(true);
    assert_eq!((r.status, r.body.as_str(), r.reboot), (200, "WiFi credentials cleared", true));
    let r = forget_reply(false);
    assert_eq!((r.status, r.body.as_str(), r.reboot), (500, "Failed to clear WiFi configuration", false));
    let r = ota_reply(true);
    assert_eq!(
        (r.status, r.body.as_str(), r.reboot),
        (200, "Filesystem updated successfully. Reboot to apply changes.", true)
    );
    let r = ota_reply(false);
    assert_eq!((r.status, r.body.as_str(), r.reboot), (500, "OTA update failed", false));
}

// --- status document ---

#[test]
fn status_document_example() {
    let json = status_json(true, Some("MyWiFi"), Some("192.168.1.100"), 3_600_000_000);
    assert_eq!(json, "{\"connected\":true,\"ssid\":\"MyWiFi\",\"ip\":\"192.168.1.100\",\"uptime\":3600}");
}

#[test]
fn status_document_fallbacks() {
    let json = status_json(false, None, None, 999_999);
    assert_eq!(json, "{\"connected\":false,\"ssid\":\"Not Configured\",\"ip\":\"Unknown\",\"uptime\":0}");
}

#[test]
fn status_uptime_truncates_like_integer_division() {
    for us in [0i64, 1, 999_999, 1_000_000, 12_345_678_901, -1, -999_999, -1_000_000, -2_500_000, i64::MAX, i64::MIN] {
        let json = status_json(true, Some("a"), Some("b"), us);
        let expected = format!("{{\"connected\":true,\"ssid\":\"a\",\"ip\":\"b\",\"uptime\":{}}}", us / 1_000_000);
        assert_eq!(json, expected);
    }
}

#[test]
fn status_reply_is_json() {
    let r = status_reply(true, Some("Net"), Some("10.0.0.2"), 5_000_000);
    assert_eq!(r.status, 200);
    assert_eq!(r.content_type, Some("application/json"));
    assert!(!r.reboot);
    assert_eq!(r.body, "{\"connected\":true,\"ssid\":\"Net\",\"ip\":\"10.0.0.2\",\"uptime\":5}");
}

// --- file serving ---

#[test]
fn root_page_choice() {
    assert_eq!(root_page(false, true), INDEX_PATH);
    assert_eq!(root_page(false, false), INDEX_PATH);
    assert_eq!(root_page(true, true), INDEX_PATH);
    assert_eq!(root_page(true, false), CONNECTED_PATH);
}

#[test]
fn static_request_paths() {
    assert_eq!(static_file_request("/app.js").ok(), Some("/www/app.js".to_string()));
    let r = static_file_request("/../secret").err().unwrap();
    assert_eq!(r.status, 400);
    assert_eq!(r.body, "Invalid path");
}

#[test]
fn embedded_files_by_path() {
    let f = files();
    assert_eq!(get_embedded_file(&f, "/www/index.html"), Some(("<html>setup</html>", "text/html")));
    assert_eq!(get_embedded_file(&f, "/www/connected.html"), Some(("<html>connected</html>", "text/html")));
    assert_eq!(get_embedded_file(&f, "/www/404.html"), Some(("<html>missing</html>", "text/html")));
    assert_eq!(get_embedded_file(&f, "/www/other.html"), None);
}

#[test]
fn serve_plan_prefers_filesystem() {
    let f = files();
    match serve_plan("/www/app.css", true, &f) {
        ServePlan::Filesystem { content_type } => assert_eq!(content_type, "text/css"),
        _ => panic!("expected filesystem"),
    }
    match serve_plan("/www/index.html", false, &f) {
        ServePlan::Embedded { content, content_type } => {
            assert_eq!(content, "<html>setup</html>");
            assert_eq!(content_type, "text/html");
        }
        _ => panic!("expected embedded"),
    }
    match serve_plan("/www/nope.png", false, &f) {
        ServePlan::NotFound { fallback } => assert_eq!(fallback, "<html>missing</html>"),
        _ => panic!("expected not found"),
    }
}

// --- start-up ---

#[test]
fn startup_gives_up_after_five_attempts() {
    let mut attempt = 1;
    let mut tries = 1;
    while let StartRetry::TryAgain { attempt: next } = after_failed_start(attempt) {
        attempt = next;
        tries += 1;
    }
    assert_eq!(tries, 5);
    assert_eq!(MAX_START_ATTEMPTS, 5);
    assert_eq!(after_failed_start(5), StartRetry::GiveUp);
    assert_eq!(after_failed_start(1), StartRetry::TryAgain { attempt: 2 });
}

// --- JSON escaping of the status document ---

#[test]
fn status_document_escapes_ssid_and_ip() {
    let json = status_json(true, Some("a\"b"), Some("x\\y"), 0);
    assert_eq!(json, "{\"connected\":true,\"ssid\":\"a\\\"b\",\"ip\":\"x\\\\y\",\"uptime\":0}");
}

#[test]
fn status_document_escapes_control_characters() {
    let json = status_json(false, Some("line\nbreak\u{1f}"), None, 0);
    assert_eq!(
        json,
        "{\"connected\":false,\"ssid\":\"line\\u000abreak\\u001f\",\"ip\":\"Unknown\",\"uptime\":0}"
    );
}

#[test]
fn status_document_is_json_that_reads_back() {
    for ssid in ["MyWiFi", "a\"b", "back\\slash", "tab\there", "Café \u{0}\u{7} ☕", ""] {
        let json = status_json(true, Some(ssid), Some("192.168.1.100"), 7_000_000);
        let v: serde_json::Value = serde_json::from_str(&json).unwrap();
        assert_eq!(v["ssid"].as_str(), Some(ssid));
        assert_eq!(v["ip"].as_str(), Some("192.168.1.100"));
        assert_eq!(v["connected"].as_bool(), Some(true));
        assert_eq!(v["uptime"].as_i64(), Some(7));
    }
}

#[test]
fn json_escape_appends() {
    let mut out = String::from("<");
    nysa::json::append_json_escaped(&mut out, "q\"\\\r");
    assert_eq!(out, "<q\\\"\\\\\\u000d");
}

// --- content type depends on the suffix only ---

#[test]
fn content_type_ignores_prefix() {
    for p in ["/a.woff2", "x/y.html", "/style.css", "photo.jpeg", "README.md"] {
        for q in ["", "/www", "/deep/dir/", "é.png/"] {
            assert_eq!(nysa::get_content_type(&format!("{}{}", q, p)), nysa::get_content_type(p));
        }
    }
}
