use zino_accessor::config::{ConfigTable, ConfigValue};
use zino_accessor::plan::Backend;
use zino_accessor::registry::{AccessorConfig, AccessorError, GlobalAccessor, RegistryError};

fn table(fields: &[(&str, &str)]) -> ConfigTable {
    let mut t = ConfigTable::new();
    for (k, v) in fields {
        t.insert(k.to_string(), ConfigValue::Str(v.to_string()));
    }
    t
}

fn record(fields: &[(&str, &str)]) -> AccessorConfig {
    AccessorConfig { table: table(fields), password: None }
}

fn round_trip(op: &opendal::Operator) {
    let b = op.blocking();
    b.write("dir/key", b"hello".to_vec()).unwrap();
    assert_eq!(b.read("dir/key").unwrap(), b"hello".to_vec());
}

#[test]
fn memory_operator_round_trips() {
    let op = GlobalAccessor::try_new_operator("memory", &ConfigTable::new(), None).unwrap();
    round_trip(&op);
}

#[test]
fn dashmap_operator_round_trips() {
    let op = GlobalAccessor::try_new_operator("dashmap", &table(&[("root", "/x")]), None).unwrap();
    round_trip(&op);
}

#[test]
fn fs_operator_round_trips() {
    let t = table(&[("root", "/tmp/zino_accessor_fs_round_trip")]);
    let op = GlobalAccessor::try_new_operator("fs", &t, None).unwrap();
    round_trip(&op);
}

#[test]
fn unsupported_scheme_is_reported() {
    match GlobalAccessor::try_new_operator("bogus", &ConfigTable::new(), None) {
        Err(AccessorError::UnsupportedScheme(s)) => assert_eq!(s, "bogus"),
        _ => panic!("expected an unsupported scheme"),
    }
    match GlobalAccessor::try_new_operator("redis", &ConfigTable::new(), None) {
        Err(AccessorError::UnsupportedScheme(s)) => assert_eq!(s, "redis"),
        _ => panic!("expected an unsupported scheme"),
    }
}

#[test]
fn backend_refusal_is_build_failed() {
    match GlobalAccessor::try_new_operator("sled", &ConfigTable::new(), None) {
        Err(AccessorError::BuildFailed(s, cause)) => {
            assert_eq!(s, "sled");
            assert!(!cause.is_empty());
        }
        _ => panic!("expected a build failure"),
    }
    match GlobalAccessor::try_new_operator("fs", &ConfigTable::new(), None) {
        Err(AccessorError::BuildFailed(s, _)) => assert_eq!(s, "fs"),
        _ => panic!("expected a build failure"),
    }
}

#[test]
fn empty_configuration_has_memory() {
    let g = GlobalAccessor::try_new(&Vec::new()).unwrap();
    assert_eq!(g.names(), vec!["memory".to_string()]);
    let op = g.get("memory").unwrap();
    round_trip(op);
    assert!(g.get("local").is_none());
}

#[test]
fn repeated_lookups_return_same_operator() {
    let g = GlobalAccessor::try_new(&Vec::new()).unwrap();
    let a = g.get("memory").unwrap();
    let b = g.get("memory").unwrap();
    assert!(std::ptr::eq(a, b));
    a.blocking().write("k", b"v".to_vec()).unwrap();
    assert_eq!(b.blocking().read("k").unwrap(), b"v".to_vec());
}

#[test]
fn registry_lists_memory_then_local() {
    let records = vec![record(&[
        ("scheme", "fs"),
        ("name", "local"),
        ("root", "/tmp/zino_accessor_local"),
    ])];
    let g = GlobalAccessor::try_new(&records).unwrap();
    assert_eq!(g.names(), vec!["memory".to_string(), "local".to_string()]);
    let e = g.get_entry("local").unwrap();
    assert_eq!(e.plan.backend, Backend::Fs);
    assert_eq!(e.plan.options[0].0, "root");
    assert_eq!(e.plan.options[0].1, "/tmp/zino_accessor_local");
    round_trip(g.get("local").unwrap());
}

#[test]
fn name_defaults_to_scheme() {
    let g = GlobalAccessor::try_new(&vec![record(&[("scheme", "dashmap")])]).unwrap();
    assert_eq!(g.names(), vec!["memory".to_string(), "dashmap".to_string()]);
}

#[test]
fn duplicate_names_resolve_to_first() {
    let records = vec![
        record(&[("scheme", "dashmap"), ("name", "cache")]),
        record(&[("scheme", "memory"), ("name", "cache")]),
        record(&[("scheme", "dashmap"), ("name", "memory")]),
    ];
    let g = GlobalAccessor::try_new(&records).unwrap();
    assert_eq!(g.names().len(), 4);
    assert_eq!(g.get_entry("cache").unwrap().plan.backend, Backend::Dashmap);
    let m = g.get_entry("memory").unwrap();
    assert_eq!(m.plan.backend, Backend::Memory);
    assert!(std::ptr::eq(g.get("memory").unwrap(), &m.operator));
}

#[test]
fn bogus_scheme_fails_construction() {
    match GlobalAccessor::try_new(&vec![record(&[("scheme", "bogus")])]) {
        Err(RegistryError { name, error: AccessorError::UnsupportedScheme(s) }) => {
            assert_eq!(s, "bogus");
            assert_eq!(name, "bogus");
        }
        _ => panic!("expected an unsupported scheme"),
    }
}

#[test]
fn missing_scheme_fails_construction() {
    match GlobalAccessor::try_new(&vec![record(&[("name", "x")])]) {
        Err(RegistryError { name, error: AccessorError::UnsupportedScheme(s) }) => {
            assert_eq!(s, "unknown");
            assert_eq!(name, "x");
        }
        _ => panic!("expected an unsupported scheme"),
    }
}

#[test]
fn later_bad_record_fails_construction() {
    let records = vec![
        record(&[("scheme", "memory")]),
        record(&[("scheme", "sled"), ("name", "db")]),
        record(&[("scheme", "bogus")]),
    ];
    match GlobalAccessor::try_new(&records) {
        Err(RegistryError { name, error: AccessorError::BuildFailed(s, _) }) => {
            assert_eq!(s, "sled");
            assert_eq!(name, "db");
        }
        _ => panic!("expected a build failure"),
    }
}

#[test]
fn moka_operator_round_trips_with_counts() {
    let mut t = table(&[("name", "cache")]);
    t.insert("max-capacity".to_string(), ConfigValue::Int(1 << 20));
    t.insert("segments".to_string(), ConfigValue::Int(2));
    let op = GlobalAccessor::try_new_operator("moka", &t, None).unwrap();
    round_trip(&op);
}

#[test]
fn webdav_with_secret_builds() {
    let t = table(&[("endpoint", "http://127.0.0.1:8080"), ("username", "u")]);
    assert!(GlobalAccessor::try_new_operator("webdav", &t, Some("pw")).is_ok());
}

#[test]
fn moka_operator_with_expirations_round_trips() {
    let mut t = ConfigTable::new();
    t.insert("time-to-live".to_string(), ConfigValue::Duration(60_000));
    t.insert("time-to-idle".to_string(), ConfigValue::Duration(60_000));
    let op = GlobalAccessor::try_new_operator("moka", &t, None).unwrap();
    round_trip(&op);
}

#[test]
fn memcached_with_ttl_builds() {
    let mut t = table(&[("endpoint", "tcp://127.0.0.1:11211")]);
    t.insert("default-ttl".to_string(), ConfigValue::Duration(30_000));
    assert!(GlobalAccessor::try_new_operator("memcached", &t, None).is_ok());
    match GlobalAccessor::try_new_operator("memcached", &ConfigTable::new(), None) {
        Err(AccessorError::BuildFailed(s, _)) => assert_eq!(s, "memcached"),
        _ => panic!("expected a build failure without endpoint"),
    }
}

#[test]
fn in_process_records_always_build() {
    let records = vec![record(&[("scheme", "dashmap"), ("name", "a")]), record(&[("scheme", "memory"), ("name", "b")])];
    let g = GlobalAccessor::try_new(&records).unwrap();
    assert_eq!(g.names(), vec!["memory".to_string(), "a".to_string(), "b".to_string()]);
}
