use fficow::app_keys::AppKeysList;
use fficow::hierarchy::MetricsHierarchy;
use fficow::response::{
    AuthorizationError, AuthorizationStatus, Period, PeriodTime, UsageReport, parse_period_time,
    period_from_str,
};

#[test]
fn period_names_parse() {
    assert_eq!(period_from_str("minute"), Some(Period::Minute));
    assert_eq!(period_from_str("hour"), Some(Period::Hour));
    assert_eq!(period_from_str("day"), Some(Period::Day));
    assert_eq!(period_from_str("week"), Some(Period::Week));
    assert_eq!(period_from_str("month"), Some(Period::Month));
    assert_eq!(period_from_str("year"), Some(Period::Year));
    assert_eq!(period_from_str("eternity"), Some(Period::Eternity));
}

#[test]
fn period_rejects_other_names() {
    assert_eq!(period_from_str("Minute"), None);
    assert_eq!(period_from_str("fortnight"), None);
    assert_eq!(period_from_str(""), None);
}

#[test]
fn timestamp_parses_to_epoch() {
    assert_eq!(
        parse_period_time("2019-06-05 16:24:00 +0000"),
        Some(PeriodTime(1559751840))
    );
    assert_eq!(
        parse_period_time("2021-06-08 18:07:00 +0000"),
        Some(PeriodTime(1623175620))
    );
}

#[test]
fn timestamp_honours_offset() {
    // One hour east of UTC is one hour earlier in epoch seconds.
    assert_eq!(
        parse_period_time("2019-06-05 16:24:00 +0100"),
        Some(PeriodTime(1559751840 - 3600))
    );
}

#[test]
fn timestamp_rejects_wrong_layout() {
    assert_eq!(parse_period_time("05-06-2019 16:24:00 +0000"), None);
    assert_eq!(parse_period_time("2019-06-05 16:24:00"), None);
    assert_eq!(parse_period_time("not a timestamp"), None);
}

#[test]
fn metrics_hierarchy_remove() {
    let mut hierarchy = MetricsHierarchy::new();

    hierarchy.insert(
        "parent1",
        vec![String::from("child1"), String::from("child2")],
    );
    hierarchy.insert("parent2", vec![String::from("child3")]);

    hierarchy.remove("parent1");

    let mut expected_hierarchy = MetricsHierarchy::new();

    expected_hierarchy.insert("parent2", vec![String::from("child3")]);

    assert_eq!(hierarchy, expected_hierarchy);
}

#[test]
fn metrics_hierarchy_parent_of() {
    let a_parent = "a_parent";
    let mut hierarchy = MetricsHierarchy::new();

    hierarchy.insert(
        a_parent,
        vec![String::from("child1"), String::from("child2")],
    );
    hierarchy.insert("parent2", vec![String::from("child3")]);

    assert_eq!(hierarchy.parent_of("child2"), Some(String::from(a_parent)));
    assert_eq!(hierarchy.parent_of("child3"), Some(String::from("parent2")));
    assert_eq!(hierarchy.parent_of("nonchild"), None);
    assert_eq!(hierarchy.parent_of(a_parent), None);
}

#[test]
fn metrics_hierarchy_insert_replaces() {
    let mut hierarchy = MetricsHierarchy::new();
    hierarchy.insert("parent1", vec![String::from("child1")]);
    hierarchy.insert("parent1", vec![String::from("child2")]);

    assert_eq!(hierarchy.parent_of("child1"), None);
    assert_eq!(hierarchy.parent_of("child2"), Some(String::from("parent1")));
}

#[test]
fn app_keys_hold_their_fields() {
    let keys = AppKeysList::new(
        String::from("service_id"),
        String::from("app_id"),
        vec![
            String::from("a_secret_key"),
            String::from("another_secret_key"),
        ],
    );
    assert_eq!(keys.service(), "service_id");
    assert_eq!(keys.app(), "app_id");
    assert_eq!(
        keys.keys(),
        &vec![
            String::from("a_secret_key"),
            String::from("another_secret_key"),
        ]
    );
}

#[test]
fn empty_app_keys() {
    let keys = AppKeysList::new(String::from("service_id"), String::from("app_id"), vec![]);
    assert_eq!(keys.keys(), &Vec::<String>::new());
}

#[test]
fn authorization_status_accessors() {
    let report = UsageReport {
        metric: String::from("products"),
        period: Period::Minute,
        period_start: PeriodTime(1559751840),
        period_end: PeriodTime(1559751900),
        max_value: 5,
        current_value: 0,
    };
    let status = AuthorizationStatus::new(
        true,
        None,
        String::from("App Plan"),
        Some(fficow::response::UsageReports::UsageReports(vec![
            report.clone()
        ])),
        None,
        None,
    );
    assert!(status.authorized());
    assert_eq!(status.reason(), None);
    assert_eq!(status.plan(), "App Plan");
    assert!(status.app_keys().is_none());
    assert!(status.hierarchy().is_none());
    let fficow::response::UsageReports::UsageReports(reports) = status.usage_reports().unwrap();
    assert_eq!(reports, &vec![report]);
}

#[test]
fn denied_authorization_carries_reason() {
    let status = AuthorizationStatus::new(
        false,
        Some(String::from("application key is missing")),
        String::from("sample"),
        None,
        None,
        None,
    );
    assert!(!status.authorized());
    assert_eq!(status.reason(), Some("application key is missing"));
    assert_eq!(status.plan(), "sample");
}

#[test]
fn authorization_error_carries_code() {
    let error = AuthorizationError::new(String::from("user_key_invalid"));
    assert_eq!(error.code(), "user_key_invalid");
}
