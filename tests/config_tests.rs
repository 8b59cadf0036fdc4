use etcd_fdw::config::{check_config, config_from_options, parse_timeout, require_pair, uses_tls, EtcdConfig};
use etcd_fdw::error::EtcdFdwError;
use etcd_fdw::options::{get_option, parse_i64, parse_u64, OptionList};
use etcd_fdw::store::{connect_options, connect_settings};
use etcd_fdw::validate::{option_given, validator, OptionCatalog};

fn opts(pairs: &[(&str, &str)]) -> OptionList {
    pairs.iter().map(|(k, v)| (k.to_string(), v.to_string())).collect()
}

fn entries(items: &[&str]) -> Vec<Option<String>> {
    items.iter().map(|s| Some(s.to_string())).collect()
}

#[test]
fn parse_u64_accepts_plain_and_plus_signed_digits() {
    assert_eq!(parse_u64("30"), Some(30));
    assert_eq!(parse_u64("+5"), Some(5));
    assert_eq!(parse_u64("0007"), Some(7));
    assert_eq!(parse_u64("18446744073709551615"), Some(u64::MAX));
}

#[test]
fn parse_u64_rejects_malformed_text() {
    assert_eq!(parse_u64(""), None);
    assert_eq!(parse_u64("+"), None);
    assert_eq!(parse_u64("-1"), None);
    assert_eq!(parse_u64("1.5"), None);
    assert_eq!(parse_u64("ten"), None);
    assert_eq!(parse_u64("18446744073709551616"), None);
}

#[test]
fn parse_i64_handles_signs_and_bounds() {
    assert_eq!(parse_i64("42"), Some(42));
    assert_eq!(parse_i64("-42"), Some(-42));
    assert_eq!(parse_i64("+42"), Some(42));
    assert_eq!(parse_i64("-9223372036854775808"), Some(i64::MIN));
    assert_eq!(parse_i64("9223372036854775807"), Some(i64::MAX));
    assert_eq!(parse_i64("9223372036854775808"), None);
    assert_eq!(parse_i64("-"), None);
    assert_eq!(parse_i64("4x"), None);
}

#[test]
fn parse_functions_agree_with_std() {
    for s in ["0", "+0", "-0", "12", "-12", "+", "", "99999999999999999999", "1 2", "\u{663}"] {
        assert_eq!(parse_u64(s), s.parse::<u64>().ok());
        assert_eq!(parse_i64(s), s.parse::<i64>().ok());
    }
}

#[test]
fn get_option_finds_value_by_name() {
    let o = opts(&[("prefix", "foo"), ("key", "bar")]);
    assert_eq!(get_option(&o, "key"), Some("bar".to_string()));
    assert_eq!(get_option(&o, "range_end"), None);
}

#[test]
fn default_config_has_no_endpoint_and_default_timeouts() {
    let c = EtcdConfig::default();
    assert!(c.endpoints.is_empty());
    assert!(c.ca_cert_path.is_none() && c.username.is_none());
    assert_eq!(c.connect_timeout_secs, 10);
    assert_eq!(c.request_timeout_secs, 30);
}

#[test]
fn require_pair_fails_only_on_half_pairs() {
    assert!(require_pair(true, true, EtcdFdwError::CertKeyMismatch).is_ok());
    assert!(require_pair(false, false, EtcdFdwError::CertKeyMismatch).is_ok());
    assert!(matches!(require_pair(true, false, EtcdFdwError::CertKeyMismatch), Err(EtcdFdwError::CertKeyMismatch)));
    assert!(matches!(require_pair(false, true, EtcdFdwError::UserPassMismatch), Err(EtcdFdwError::UserPassMismatch)));
}

#[test]
fn parse_timeout_reads_seconds_or_default() {
    let o = opts(&[("connect_timeout", "5"), ("request_timeout", "soon")]);
    assert_eq!(parse_timeout(&o, "connect_timeout", 10).unwrap(), 5);
    assert_eq!(parse_timeout(&o, "other_timeout", 10).unwrap(), 10);
    match parse_timeout(&o, "request_timeout", 30) {
        Err(EtcdFdwError::InvalidOption(k, v)) => {
            assert_eq!(k, "request_timeout");
            assert_eq!(v, "soon");
        }
        _ => panic!("expected an invalid option"),
    }
}

#[test]
fn config_without_connstr_is_rejected() {
    let o = opts(&[("ssl_ca", "/ca.pem"), ("username", "u"), ("password", "p")]);
    assert!(matches!(config_from_options(&o), Err(EtcdFdwError::NoConnStr)));
    assert!(matches!(config_from_options(&Vec::new()), Err(EtcdFdwError::NoConnStr)));
}

#[test]
fn config_collects_server_options() {
    let o = opts(&[
        ("connstr", "localhost:2379"),
        ("ssl_ca", "/ca.pem"),
        ("ssl_cert", "/c.pem"),
        ("ssl_key", "/k.pem"),
        ("ssl_servername", "etcd"),
        ("username", "u"),
        ("password", "p"),
        ("connect_timeout", "3"),
    ]);
    let c = config_from_options(&o).unwrap();
    assert_eq!(c.endpoints, vec!["localhost:2379".to_string()]);
    assert_eq!(c.ca_cert_path.as_deref(), Some("/ca.pem"));
    assert_eq!(c.client_cert_path.as_deref(), Some("/c.pem"));
    assert_eq!(c.client_key_path.as_deref(), Some("/k.pem"));
    assert_eq!(c.servername.as_deref(), Some("etcd"));
    assert_eq!(c.username.as_deref(), Some("u"));
    assert_eq!(c.password.as_deref(), Some("p"));
    assert_eq!(c.connect_timeout_secs, 3);
    assert_eq!(c.request_timeout_secs, 30);
}

#[test]
fn config_rejects_unpaired_cert_and_credentials() {
    let cert_only = opts(&[("connstr", "h:1"), ("ssl_cert", "/c.pem")]);
    assert!(matches!(config_from_options(&cert_only), Err(EtcdFdwError::CertKeyMismatch)));
    let key_only = opts(&[("connstr", "h:1"), ("ssl_key", "/k.pem")]);
    assert!(matches!(config_from_options(&key_only), Err(EtcdFdwError::CertKeyMismatch)));
    let user_only = opts(&[("connstr", "h:1"), ("username", "u")]);
    assert!(matches!(config_from_options(&user_only), Err(EtcdFdwError::UserPassMismatch)));
    let pass_only = opts(&[("connstr", "h:1"), ("password", "p")]);
    assert!(matches!(config_from_options(&pass_only), Err(EtcdFdwError::UserPassMismatch)));
}

#[test]
fn config_rejects_non_numeric_timeout() {
    let o = opts(&[("connstr", "h:1"), ("connect_timeout", "-1")]);
    match config_from_options(&o) {
        Err(EtcdFdwError::InvalidOption(k, v)) => {
            assert_eq!(k, "connect_timeout");
            assert_eq!(v, "-1");
        }
        _ => panic!("expected an invalid option"),
    }
}

#[test]
fn check_config_finds_faults_in_order() {
    let mut c = EtcdConfig::default();
    assert!(matches!(check_config(&c), Err(EtcdFdwError::NoConnStr)));
    c.endpoints.push("h:1".to_string());
    assert!(check_config(&c).is_ok());
    c.client_key_path = Some("/k.pem".to_string());
    c.username = Some("u".to_string());
    assert!(matches!(check_config(&c), Err(EtcdFdwError::CertKeyMismatch)));
    c.client_cert_path = Some("/c.pem".to_string());
    assert!(matches!(check_config(&c), Err(EtcdFdwError::UserPassMismatch)));
    c.password = Some("p".to_string());
    assert!(check_config(&c).is_ok());
}

#[test]
fn tls_is_used_with_any_certificate() {
    let mut c = EtcdConfig::default();
    assert!(!uses_tls(&c));
    c.servername = Some("etcd".to_string());
    assert!(connect_settings(&c).tls.is_none());
    c.client_cert_path = Some("/c.pem".to_string());
    c.client_key_path = Some("/k.pem".to_string());
    assert!(uses_tls(&c));
    let tls = connect_settings(&c).tls.unwrap();
    assert!(tls.ca_cert_path.is_none());
    assert_eq!(tls.identity_paths, Some(("/c.pem".to_string(), "/k.pem".to_string())));
    assert_eq!(tls.domain.as_deref(), Some("etcd"));
    c.client_cert_path = None;
    c.client_key_path = None;
    c.ca_cert_path = Some("/ca.pem".to_string());
    let tls = connect_settings(&c).tls.unwrap();
    assert_eq!(tls.ca_cert_path.as_deref(), Some("/ca.pem"));
    assert!(tls.identity_paths.is_none());
}

#[test]
fn credentials_need_both_halves() {
    let mut c = EtcdConfig::default();
    c.username = Some("u".to_string());
    assert!(connect_settings(&c).credentials.is_none());
    c.password = Some("p".to_string());
    let s = connect_settings(&c);
    assert!(s.tls.is_none());
    assert_eq!(s.credentials, Some(("u".to_string(), "p".to_string())));
}

#[test]
fn settings_keep_endpoints_and_timeouts() {
    let mut c = EtcdConfig::default();
    c.endpoints = vec!["h1:1".to_string(), "h2:2".to_string()];
    c.connect_timeout_secs = 4;
    let s = connect_settings(&c);
    assert_eq!(s.endpoints, c.endpoints);
    assert_eq!(s.connect_timeout_secs, 4);
    assert_eq!(s.request_timeout_secs, 30);
}

#[test]
fn connect_options_build_without_panicking() {
    let mut c = EtcdConfig::default();
    c.endpoints.push("https://h:1".to_string());
    c.ca_cert_path = Some("/ca.pem".to_string());
    c.servername = Some("etcd".to_string());
    c.username = Some("u".to_string());
    c.password = Some("p".to_string());
    let s = connect_settings(&c);
    let _ = connect_options(&s, Some(b"ca".to_vec()), Some((b"cert".to_vec(), b"key".to_vec())));
    let _ = connect_options(&connect_settings(&EtcdConfig::default()), None, None);
}

#[test]
fn option_given_matches_name_and_equals_sign() {
    let o = entries(&["connstr=h:1", "prefixed=x", "key="]);
    assert!(option_given(&o, "connstr"));
    assert!(option_given(&o, "key"));
    assert!(!option_given(&o, "prefix"));
    assert!(!option_given(&vec![None], "key"));
}

#[test]
fn validator_checks_server_options() {
    assert!(validator(&entries(&["connstr=h:1"]), OptionCatalog::ForeignServer).is_ok());
    match validator(&entries(&["ssl_ca=/ca.pem"]), OptionCatalog::ForeignServer) {
        Err(EtcdFdwError::OptionsError(name)) => assert_eq!(name, "connstr"),
        _ => panic!("expected a missing option"),
    }
    let cert_only = entries(&["connstr=h:1", "ssl_cert=/c.pem"]);
    assert!(matches!(validator(&cert_only, OptionCatalog::ForeignServer), Err(EtcdFdwError::CertKeyMismatch)));
    let user_only = entries(&["connstr=h:1", "username=u"]);
    assert!(matches!(validator(&user_only, OptionCatalog::ForeignServer), Err(EtcdFdwError::UserPassMismatch)));
    let full = entries(&["connstr=h:1", "ssl_cert=/c", "ssl_key=/k", "username=u", "password=p"]);
    assert!(validator(&full, OptionCatalog::ForeignServer).is_ok());
}

#[test]
fn validator_checks_table_options() {
    assert!(validator(&entries(&["rowid_column=key"]), OptionCatalog::ForeignTable).is_ok());
    match validator(&entries(&["prefix=a"]), OptionCatalog::ForeignTable) {
        Err(EtcdFdwError::OptionsError(name)) => assert_eq!(name, "rowid_column"),
        _ => panic!("expected a missing option"),
    }
    let range = entries(&["rowid_column=key", "prefix=a", "range_end=b"]);
    assert!(matches!(validator(&range, OptionCatalog::ForeignTable), Err(EtcdFdwError::ConflictingPrefixAndRange)));
    let key = entries(&["rowid_column=key", "prefix=a", "key=b"]);
    assert!(matches!(validator(&key, OptionCatalog::ForeignTable), Err(EtcdFdwError::ConflictingPrefixAndKey)));
    assert!(validator(&entries(&["prefix=a"]), OptionCatalog::Other).is_ok());
}
