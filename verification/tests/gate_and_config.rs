//! Tests of the outbound-HTTP gate and of configuration assembly.

use wasm_lambda::config::{parse_u32_decimal, retrieve_config, split_hosts};
use wasm_lambda::engine::{Builder, ExecutionContextConfiguration};
use wasm_lambda::error::ConfigError;
use wasm_lambda::gate::HttpGate;

fn pairs(entries: &[(&str, &str)]) -> Vec<(String, String)> {
    entries.iter().map(|(k, v)| (k.to_string(), v.to_string())).collect()
}

#[test]
fn ceiling_of_one_denies_second_concurrent_request() {
    let mut gate = HttpGate::new(None, Some(1));
    assert!(gate.try_acquire());
    assert!(!gate.try_acquire());
    gate.release();
    assert!(gate.try_acquire());
}

#[test]
fn ceiling_of_zero_denies_everything() {
    let mut gate = HttpGate::new(None, Some(0));
    assert!(!gate.try_acquire());
    assert!(!gate.try_acquire());
}

#[test]
fn no_ceiling_admits_many() {
    let mut gate = HttpGate::new(None, None);
    for _ in 0..100 {
        assert!(gate.try_acquire());
    }
}

#[test]
fn absent_allow_list_denies_every_host() {
    let gate = HttpGate::new(None, None);
    assert!(!gate.host_allowed(&"example.com".to_owned()));
}

#[test]
fn allow_list_admits_exactly_its_entries() {
    let hosts = vec!["example.com".to_owned(), "internal.test".to_owned()];
    let gate = HttpGate::new(Some(hosts), None);
    assert!(gate.host_allowed(&"example.com".to_owned()));
    assert!(gate.host_allowed(&"internal.test".to_owned()));
    assert!(!gate.host_allowed(&"other.org".to_owned()));
}

#[test]
fn allow_all_marker_admits_any_host() {
    let gate = HttpGate::new(Some(vec!["insecure:allow-all".to_owned()]), None);
    assert!(gate.host_allowed(&"anything.example".to_owned()));
}

#[test]
fn empty_allow_list_entry_fails_capability_link() {
    let config = ExecutionContextConfiguration {
        allowed_hosts: Some(vec!["good.example".to_owned(), "".to_owned()]),
        ..Default::default()
    };
    let mut builder = Builder::new(config).expect("engine must build");
    let err = builder.link_wasi_http();
    assert!(matches!(
        err,
        Err(wasm_lambda::error::BuildError::CapabilityInit(_))
    ));
}

#[test]
fn valid_allow_list_links() {
    let config = ExecutionContextConfiguration {
        allowed_hosts: Some(vec!["good.example".to_owned()]),
        ..Default::default()
    };
    let mut builder = Builder::new(config).expect("engine must build");
    assert!(builder.link_wasi_http().is_ok());
}

#[test]
fn parse_u32_decimal_accepts_plain_numbers() {
    assert_eq!(parse_u32_decimal("0"), Some(0));
    assert_eq!(parse_u32_decimal("7"), Some(7));
    assert_eq!(parse_u32_decimal("007"), Some(7));
    assert_eq!(parse_u32_decimal("4294967295"), Some(u32::MAX));
}

#[test]
fn parse_u32_decimal_rejects_malformed_input() {
    assert_eq!(parse_u32_decimal(""), None);
    assert_eq!(parse_u32_decimal("12a"), None);
    assert_eq!(parse_u32_decimal("-3"), None);
    assert_eq!(parse_u32_decimal(" 3"), None);
    assert_eq!(parse_u32_decimal("4294967296"), None);
    assert_eq!(parse_u32_decimal("99999999999"), None);
}

#[test]
fn split_hosts_keeps_order_and_empty_entries() {
    assert_eq!(split_hosts("a,b"), vec!["a".to_owned(), "b".to_owned()]);
    assert_eq!(split_hosts(""), vec!["".to_owned()]);
    assert_eq!(split_hosts("a,,b"), vec!["a".to_owned(), "".to_owned(), "b".to_owned()]);
    assert_eq!(split_hosts("one.example,"), vec!["one.example".to_owned(), "".to_owned()]);
    assert_eq!(split_hosts("solo.example"), vec!["solo.example".to_owned()]);
}

#[test]
fn retrieve_config_composes_source_path() {
    let vars = pairs(&[
        ("LAMBDA_TASK_ROOT", "/var/task"),
        ("_HANDLER", "app"),
        ("ALLOWED_HOSTS", "a.example,b.example"),
        ("MAX_CONCURRENCY", "4"),
        ("UNRELATED", "ignored"),
    ]);
    let config = retrieve_config(&vars).expect("complete configuration");
    assert_eq!(config.id, "Lambda");
    assert_eq!(config.task_directory, "/var/task");
    assert_eq!(config.temp_directory, "/tmp");
    assert_eq!(config.source, "/var/task/app.wasm");
    assert_eq!(
        config.allowed_hosts,
        Some(vec!["a.example".to_owned(), "b.example".to_owned()])
    );
    assert_eq!(config.max_concurrent_requests, Some(4));
}

#[test]
fn retrieve_config_without_optional_entries() {
    let vars = pairs(&[("LAMBDA_TASK_ROOT", "/srv"), ("_HANDLER", "h")]);
    let config = retrieve_config(&vars).expect("complete configuration");
    assert_eq!(config.source, "/srv/h.wasm");
    assert_eq!(config.allowed_hosts, None);
    assert_eq!(config.max_concurrent_requests, None);
}

#[test]
fn retrieve_config_last_occurrence_wins() {
    let vars = pairs(&[
        ("LAMBDA_TASK_ROOT", "/old"),
        ("_HANDLER", "first"),
        ("LAMBDA_TASK_ROOT", "/new"),
        ("_HANDLER", "second"),
    ]);
    let config = retrieve_config(&vars).expect("complete configuration");
    assert_eq!(config.source, "/new/second.wasm");
}

#[test]
fn retrieve_config_missing_task_root_is_an_error() {
    let vars = pairs(&[("_HANDLER", "h")]);
    assert!(matches!(retrieve_config(&vars), Err(ConfigError::MissingTaskRoot)));
}

#[test]
fn retrieve_config_missing_handler_is_an_error() {
    let vars = pairs(&[("LAMBDA_TASK_ROOT", "/srv")]);
    assert!(matches!(retrieve_config(&vars), Err(ConfigError::MissingHandler)));
}

#[test]
fn retrieve_config_malformed_concurrency_is_an_error() {
    let vars = pairs(&[
        ("LAMBDA_TASK_ROOT", "/srv"),
        ("_HANDLER", "h"),
        ("MAX_CONCURRENCY", "many"),
    ]);
    assert!(matches!(retrieve_config(&vars), Err(ConfigError::InvalidMaxConcurrency)));
}
