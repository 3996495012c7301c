use zino_accessor::config::{parse_millis, ConfigTable, ConfigValue};
use zino_accessor::plan::{backend_for, Backend, BackendPlan};

fn table(fields: &[(&str, &str)]) -> ConfigTable {
    let mut t = ConfigTable::new();
    for (k, v) in fields {
        t.insert(k.to_string(), ConfigValue::Str(v.to_string()));
    }
    t
}

fn options(p: &BackendPlan) -> Vec<(&str, &str)> {
    p.options.iter().map(|(k, v)| (k.as_str(), v.as_str())).collect()
}

#[test]
fn get_str_reads_first_string_field() {
    let mut t = table(&[("root", "/a"), ("root", "/b")]);
    t.insert("n".to_string(), ConfigValue::Int(3));
    assert_eq!(t.get_str("root"), Some("/a".to_string()));
    assert_eq!(t.get_str("n"), None);
    assert_eq!(t.get_i64("n"), Some(3));
    assert_eq!(t.get_i64("root"), None);
    assert_eq!(t.get_str("missing"), None);
}

#[test]
fn schemes_select_backends() {
    assert_eq!(backend_for("s3"), Some(Backend::S3));
    assert_eq!(backend_for("minio"), Some(Backend::S3));
    assert_eq!(backend_for("azdfs"), Some(Backend::Azdls));
    assert_eq!(backend_for("memory"), Some(Backend::Memory));
    assert_eq!(backend_for("webhdfs"), Some(Backend::Webhdfs));
    assert_eq!(backend_for("redis"), None);
    assert_eq!(backend_for("bogus"), None);
    assert_eq!(backend_for(""), None);
    assert_eq!(backend_for("S3"), None);
}

#[test]
fn backend_names_follow_storage_library() {
    assert_eq!(Backend::Azdls.name(), "azdls");
    assert_eq!(Backend::S3.name(), "s3");
    assert_eq!(Backend::Memory.name(), "memory");
}

#[test]
fn s3_plan_maps_fields_in_order() {
    let t = table(&[
        ("secret-access-key", "sk"),
        ("bucket", "b"),
        ("unused", "x"),
        ("root", "/r"),
        ("access-key-id", "ak"),
        ("region", "us-east-1"),
    ]);
    let p = BackendPlan::for_scheme("minio", &t, None).unwrap();
    assert_eq!(p.backend, Backend::S3);
    assert_eq!(
        options(&p),
        vec![
            ("root", "/r"),
            ("bucket", "b"),
            ("region", "us-east-1"),
            ("access_key_id", "ak"),
            ("secret_access_key", "sk"),
        ]
    );
}

#[test]
fn fs_plan_keeps_root() {
    let t = table(&[("scheme", "fs"), ("name", "local"), ("root", "/data")]);
    let p = BackendPlan::for_scheme("fs", &t, None).unwrap();
    assert_eq!(p.backend, Backend::Fs);
    assert_eq!(options(&p), vec![("root", "/data")]);
}

#[test]
fn azblob_plan_always_names_container() {
    let p = BackendPlan::for_scheme("azblob", &table(&[]), None).unwrap();
    assert_eq!(options(&p), vec![("container", "")]);
    let t = table(&[("container", "c"), ("sas-token", "t")]);
    let p = BackendPlan::for_scheme("azblob", &t, None).unwrap();
    assert_eq!(options(&p), vec![("container", "c"), ("sas_token", "t")]);
}

#[test]
fn password_backends_take_resolved_secret() {
    let t = table(&[("endpoint", "http://h"), ("username", "u")]);
    let p = BackendPlan::for_scheme("webdav", &t, Some("pw")).unwrap();
    assert_eq!(
        options(&p),
        vec![("endpoint", "http://h"), ("username", "u"), ("password", "pw")]
    );
    let p = BackendPlan::for_scheme("webdav", &t, None).unwrap();
    assert_eq!(options(&p), vec![("endpoint", "http://h"), ("username", "u")]);
    let p = BackendPlan::for_scheme("ftp", &table(&[("user", "me")]), Some("s")).unwrap();
    assert_eq!(options(&p), vec![("user", "me"), ("password", "s")]);
    // a secret is not handed to a backend that takes none
    let p = BackendPlan::for_scheme("s3", &table(&[]), Some("s")).unwrap();
    assert!(p.options.is_empty());
}

#[test]
fn moka_plan_writes_counts_in_decimal() {
    let mut t = table(&[("name", "cache")]);
    t.insert("max-capacity".to_string(), ConfigValue::Int(1024));
    t.insert("segments".to_string(), ConfigValue::Int(4));
    let p = BackendPlan::for_scheme("moka", &t, None).unwrap();
    assert_eq!(
        options(&p),
        vec![("name", "cache"), ("max_capacity", "1024"), ("num_segments", "4")]
    );
}

#[test]
fn moka_plan_drops_out_of_range_counts() {
    let mut t = ConfigTable::new();
    t.insert("max-capacity".to_string(), ConfigValue::Int(-1));
    t.insert("segments".to_string(), ConfigValue::Int(0));
    let p = BackendPlan::for_scheme("moka", &t, None).unwrap();
    assert!(p.options.is_empty());
    let mut t = ConfigTable::new();
    t.insert("max-capacity".to_string(), ConfigValue::Str("10".to_string()));
    let p = BackendPlan::for_scheme("moka", &t, None).unwrap();
    assert!(p.options.is_empty());
}

#[test]
fn obs_plan_reads_secret_field_in_either_spelling() {
    let t = table(&[("secret-access-key", "other"), ("secret_access_key", "k")]);
    let p = BackendPlan::for_scheme("obs", &t, None).unwrap();
    assert_eq!(options(&p), vec![("secret_access_key", "k")]);
    let t = table(&[("secret-access-key", "h")]);
    let p = BackendPlan::for_scheme("obs", &t, None).unwrap();
    assert_eq!(options(&p), vec![("secret_access_key", "h")]);
}

#[test]
fn moka_plan_drops_zero_capacity() {
    let mut t = ConfigTable::new();
    t.insert("max-capacity".to_string(), ConfigValue::Int(0));
    let p = BackendPlan::for_scheme("moka", &t, None).unwrap();
    assert!(p.options.is_empty());
}

#[test]
fn duration_text_is_parsed() {
    assert_eq!(parse_millis("500ms"), Some(500));
    assert_eq!(parse_millis("30s"), Some(30_000));
    assert_eq!(parse_millis("2m"), Some(120_000));
    assert_eq!(parse_millis("1h"), Some(3_600_000));
    assert_eq!(parse_millis("7d"), Some(604_800_000));
    assert_eq!(parse_millis("0s"), Some(0));
    assert_eq!(parse_millis("s"), None);
    assert_eq!(parse_millis("ms"), None);
    assert_eq!(parse_millis("10"), None);
    assert_eq!(parse_millis("1.5s"), None);
    assert_eq!(parse_millis("-1s"), None);
    assert_eq!(parse_millis("10x"), None);
    assert_eq!(parse_millis("18446744073709551615ms"), Some(u64::MAX));
    assert_eq!(parse_millis("18446744073709551616ms"), None);
    assert_eq!(parse_millis("18446744073709552s"), None);
}

#[test]
fn duration_fields_accept_text() {
    let t = table(&[("time-to-live", "90s"), ("time-to-idle", "soon")]);
    assert_eq!(t.get_millis("time-to-live"), Some(90_000));
    assert_eq!(t.get_millis("time-to-idle"), None);
    let p = BackendPlan::for_scheme("moka", &t, None).unwrap();
    assert_eq!(p.time_to_live, Some(90_000));
    assert_eq!(p.time_to_idle, None);
}

#[test]
fn password_backends_are_ftp_and_webdav() {
    assert!(Backend::Ftp.takes_password());
    assert!(Backend::Webdav.takes_password());
    assert!(!Backend::S3.takes_password());
    assert!(!Backend::Memory.takes_password());
}

#[test]
fn sled_plan_maps_data_dir() {
    let p = BackendPlan::for_scheme("sled", &table(&[("data-dir", "/d")]), None).unwrap();
    assert_eq!(options(&p), vec![("datadir", "/d")]);
}

#[test]
fn unsupported_scheme_has_no_plan() {
    assert!(BackendPlan::for_scheme("bogus", &table(&[("root", "/")]), None).is_none());
    assert!(BackendPlan::for_scheme("redis", &table(&[]), Some("pw")).is_none());
}

#[test]
fn moka_plan_takes_expirations() {
    let mut t = ConfigTable::new();
    t.insert("time-to-live".to_string(), ConfigValue::Duration(60_000));
    t.insert("time-to-idle".to_string(), ConfigValue::Duration(5_000));
    t.insert("default-ttl".to_string(), ConfigValue::Duration(1));
    let p = BackendPlan::for_scheme("moka", &t, None).unwrap();
    assert_eq!(p.time_to_live, Some(60_000));
    assert_eq!(p.time_to_idle, Some(5_000));
    assert!(p.options.is_empty());
}

#[test]
fn moka_plan_drops_expirations_beyond_a_thousand_years() {
    let mut t = ConfigTable::new();
    t.insert("time-to-live".to_string(), ConfigValue::Duration(31_536_000_000_001));
    t.insert("time-to-idle".to_string(), ConfigValue::Duration(31_536_000_000_000));
    let p = BackendPlan::for_scheme("moka", &t, None).unwrap();
    assert_eq!(p.time_to_live, None);
    assert_eq!(p.time_to_idle, Some(31_536_000_000_000));
}

#[test]
fn memcached_plan_takes_default_ttl() {
    let mut t = table(&[("endpoint", "tcp://127.0.0.1:11211")]);
    t.insert("default-ttl".to_string(), ConfigValue::Duration(30_000));
    t.insert("time-to-idle".to_string(), ConfigValue::Duration(1));
    let p = BackendPlan::for_scheme("memcached", &t, None).unwrap();
    assert_eq!(options(&p), vec![("endpoint", "tcp://127.0.0.1:11211")]);
    assert_eq!(p.time_to_live, Some(30_000));
    assert_eq!(p.time_to_idle, None);
}

#[test]
fn duration_field_of_other_kind_is_ignored() {
    let mut t = ConfigTable::new();
    t.insert("time-to-live".to_string(), ConfigValue::Int(10));
    assert_eq!(t.get_millis("time-to-live"), None);
    let p = BackendPlan::for_scheme("moka", &t, None).unwrap();
    assert_eq!(p.time_to_live, None);
    let p = BackendPlan::for_scheme("fs", &t, None).unwrap();
    assert_eq!(p.time_to_live, None);
}
