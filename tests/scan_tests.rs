use etcd_fdw::cursor::{RemoteRow, ScanCursor};
use etcd_fdw::error::EtcdFdwError;
use etcd_fdw::options::OptionList;
use etcd_fdw::plan::{plan_scan, sort_field_from_name, ScanMode, ScanPlan, SortField, SortRequest};
use etcd_fdw::store::get_options;

fn opts(pairs: &[(&str, &str)]) -> OptionList {
    pairs.iter().map(|(k, v)| (k.to_string(), v.to_string())).collect()
}

fn cols(names: &[&str]) -> Vec<String> {
    names.iter().map(|s| s.to_string()).collect()
}

fn sort(field: &str, reversed: bool) -> Vec<SortRequest> {
    vec![SortRequest { field: field.to_string(), reversed }]
}

fn plan(pairs: &[(&str, &str)]) -> ScanPlan {
    plan_scan(&opts(pairs), &cols(&["key", "value"]), &Vec::new(), None).unwrap()
}

fn remote(k: &str, v: &str) -> RemoteRow {
    (k.as_bytes().to_vec(), v.as_bytes().to_vec())
}

#[test]
fn sort_names_match_without_case() {
    assert_eq!(sort_field_from_name("key"), Some(SortField::Key));
    assert_eq!(sort_field_from_name("Version"), Some(SortField::Version));
    assert_eq!(sort_field_from_name("CREATE"), Some(SortField::Create));
    assert_eq!(sort_field_from_name("mOd"), Some(SortField::Mod));
    assert_eq!(sort_field_from_name("value"), Some(SortField::Value));
    assert_eq!(sort_field_from_name("keys"), None);
    assert_eq!(sort_field_from_name(""), None);
}

#[test]
fn prefix_and_range_conflict() {
    let r = plan_scan(&opts(&[("prefix", "a"), ("range_end", "b")]), &cols(&["key"]), &sort("key", false), Some(3));
    assert!(matches!(r, Err(EtcdFdwError::ConflictingPrefixAndRange)));
}

#[test]
fn unknown_sort_field_is_named() {
    let r = plan_scan(&opts(&[("prefix", "a")]), &cols(&["key"]), &sort("size", true), None);
    match r {
        Err(EtcdFdwError::InvalidSortField(f)) => assert_eq!(f, "size"),
        _ => panic!("expected an invalid sort field"),
    }
}

#[test]
fn first_sort_is_pushed_down() {
    let sorts = vec![
        SortRequest { field: "value".to_string(), reversed: true },
        SortRequest { field: "nonsense".to_string(), reversed: false },
    ];
    let p = plan_scan(&Vec::new(), &cols(&["key"]), &sorts, None).unwrap();
    assert_eq!(p.sort, Some((SortField::Value, true)));
    let p = plan_scan(&Vec::new(), &cols(&["key"]), &sort("Key", false), None).unwrap();
    assert_eq!(p.sort, Some((SortField::Key, false)));
}

#[test]
fn prefix_mode_starts_at_prefix() {
    let p = plan(&[("prefix", "foo"), ("key", "zzz")]);
    assert!(matches!(p.mode, ScanMode::Prefix));
    assert_eq!(p.key, "foo");
}

#[test]
fn range_mode_starts_at_key_or_smallest() {
    let p = plan(&[("range_end", "m"), ("key", "c")]);
    assert!(matches!(&p.mode, ScanMode::Range(end) if end == "m"));
    assert_eq!(p.key, "c");
    let p = plan(&[("range_end", "m")]);
    assert_eq!(p.key, "\0");
}

#[test]
fn fixed_key_is_a_point_read() {
    let p = plan(&[("key", "foo")]);
    assert!(matches!(p.mode, ScanMode::Point));
    assert_eq!(p.key, "foo");
}

#[test]
fn no_target_reads_everything_from_smallest_key() {
    let p = plan(&[]);
    assert!(matches!(p.mode, ScanMode::All));
    assert_eq!(p.key, "\0");
    assert_eq!(p.limit, None);
    assert!(!p.keys_only && !p.serializable);
    assert_eq!(p.revision, None);
    assert_eq!(p.sort, None);
}

#[test]
fn tuning_options_are_read() {
    let p = plan_scan(
        &opts(&[("keys_only", "true"), ("revision", "12"), ("consistency", "s")]),
        &cols(&["key", "value"]),
        &Vec::new(),
        Some(5),
    )
    .unwrap();
    assert!(p.keys_only && p.serializable);
    assert_eq!(p.revision, Some(12));
    assert_eq!(p.limit, Some(5));
    assert!(p.fetch_key && !p.fetch_value);
}

#[test]
fn odd_tuning_values_fall_back() {
    let p = plan(&[("keys_only", "yes"), ("revision", "-4"), ("consistency", "l")]);
    assert!(!p.keys_only && !p.serializable);
    assert_eq!(p.revision, None);
    let p = plan(&[("revision", "many")]);
    assert_eq!(p.revision, None);
}

#[test]
fn projection_follows_requested_columns() {
    let p = plan_scan(&Vec::new(), &cols(&["value"]), &Vec::new(), None).unwrap();
    assert!(!p.fetch_key && p.fetch_value);
    let p = plan_scan(&Vec::new(), &Vec::new(), &Vec::new(), None).unwrap();
    assert!(!p.fetch_key && !p.fetch_value);
}

#[test]
fn get_options_build_for_every_mode() {
    for pairs in [
        vec![("prefix", "a"), ("keys_only", "true"), ("revision", "3"), ("consistency", "s")],
        vec![("range_end", "b")],
        vec![("key", "a")],
        vec![],
    ] {
        let p = plan_scan(&opts(&pairs), &cols(&["key"]), &sort("mod", true), Some(2)).unwrap();
        let _ = get_options(&p);
    }
}

#[test]
fn cursor_hands_out_rows_in_order() {
    let p = plan(&[]);
    let mut c = ScanCursor::new();
    assert!(c.begin(&p, Ok(vec![remote("a", "1"), remote("b", "2")])).is_ok());
    assert_eq!(c.remaining(), 2);
    let r = c.next().unwrap().unwrap();
    assert_eq!((r.key.as_deref(), r.value.as_deref()), (Some("a"), Some("1")));
    let r = c.next().unwrap().unwrap();
    assert_eq!((r.key.as_deref(), r.value.as_deref()), (Some("b"), Some("2")));
    assert!(c.next().unwrap().is_none());
    assert!(c.next().unwrap().is_none());
}

#[test]
fn cursor_fills_requested_columns_only() {
    let p = plan_scan(&Vec::new(), &cols(&["value"]), &Vec::new(), None).unwrap();
    let mut c = ScanCursor::new();
    c.begin(&p, Ok(vec![remote("k", "v")])).unwrap();
    let r = c.next().unwrap().unwrap();
    assert!(r.key.is_none());
    assert_eq!(r.value.as_deref(), Some("v"));
}

#[test]
fn cursor_reports_fetch_error() {
    let p = plan(&[]);
    let mut c = ScanCursor::new();
    match c.begin(&p, Err("connection refused".to_string())) {
        Err(EtcdFdwError::FetchError(m)) => assert_eq!(m, "connection refused"),
        _ => panic!("expected a fetch error"),
    }
    assert_eq!(c.remaining(), 0);
}

#[test]
fn cursor_refuses_bytes_that_are_not_text() {
    let p = plan(&[]);
    let mut c = ScanCursor::new();
    c.begin(&p, Ok(vec![(vec![0xff, 0xfe], b"v".to_vec()), remote("ok", "\u{e9}")])).unwrap();
    assert!(matches!(c.next(), Err(EtcdFdwError::FetchError(_))));
    let r = c.next().unwrap().unwrap();
    assert_eq!(r.key.as_deref(), Some("ok"));
    assert_eq!(r.value.as_deref(), Some("\u{e9}"));
}

#[test]
fn value_bytes_are_not_read_when_not_requested() {
    let p = plan_scan(&Vec::new(), &cols(&["key"]), &Vec::new(), None).unwrap();
    let mut c = ScanCursor::new();
    c.begin(&p, Ok(vec![(b"k".to_vec(), vec![0xc3])])).unwrap();
    let r = c.next().unwrap().unwrap();
    assert_eq!(r.key.as_deref(), Some("k"));
    assert!(r.value.is_none());
}

#[test]
fn close_twice_is_a_no_op() {
    let p = plan(&[]);
    let mut c = ScanCursor::new();
    c.close();
    assert_eq!(c.remaining(), 0);
    c.begin(&p, Ok(vec![remote("a", "1")])).unwrap();
    c.close();
    assert_eq!(c.remaining(), 0);
    c.close();
    assert_eq!(c.remaining(), 0);
    assert!(c.next().unwrap().is_none());
}
