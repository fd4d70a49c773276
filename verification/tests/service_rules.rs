use math_circle_board::clock::{now, timestamp_from};
use math_circle_board::service::{
    after_open_attempt, default_client_id, default_tenant_id, default_tenant_subdomain,
    discovery_url, has_owner_column, is_immutable_asset, port_from, retry_after_seconds,
    schema_is_current, sqlite_is_locked, OpenOutcome, RetryAction,
};

#[test]
fn retry_after_is_at_least_one_second() {
    assert_eq!(retry_after_seconds(None), 1);
    assert_eq!(retry_after_seconds(Some(0)), 1);
    assert_eq!(retry_after_seconds(Some(1)), 1);
    assert_eq!(retry_after_seconds(Some(7)), 7);
}

#[test]
fn only_successful_hashed_assets_are_immutable() {
    assert!(is_immutable_asset("/assets/app-abc123.js", true));
    assert!(!is_immutable_asset("/assets/app-abc123.js", false));
    assert!(!is_immutable_asset("/board", true));
    assert!(!is_immutable_asset("/assetsx/a.js", true));
}

#[test]
fn locked_databases_are_recognised() {
    assert!(sqlite_is_locked("error returned from database: (code: 5) database is locked"));
    assert!(sqlite_is_locked("Database Is BUSY"));
    assert!(!sqlite_is_locked("no such table: settings"));
}

#[test]
fn opening_retries_only_locked_databases_before_the_last_attempt() {
    assert_eq!(after_open_attempt(1, 60, OpenOutcome::Opened), RetryAction::Finish);
    assert_eq!(after_open_attempt(1, 60, OpenOutcome::Locked), RetryAction::WaitAndRetry);
    assert_eq!(after_open_attempt(60, 60, OpenOutcome::Locked), RetryAction::GiveUp);
    assert_eq!(after_open_attempt(2, 60, OpenOutcome::Failed), RetryAction::GiveUp);
}

#[test]
fn schema_checks() {
    let cols = vec!["id".to_string(), "owner_oid".to_string()];
    let legacy = vec!["id".to_string(), "facilitator".to_string()];
    assert!(has_owner_column(&cols));
    assert!(!has_owner_column(&legacy));
    assert!(schema_is_current(6, &cols, 1));
    assert!(!schema_is_current(5, &cols, 1));
    assert!(!schema_is_current(6, &legacy, 1));
    assert!(!schema_is_current(6, &cols, 0));
}

#[test]
fn ports_are_read_like_u16_from_str() {
    assert_eq!(port_from(None), 8080);
    assert_eq!(port_from(Some("3000")), 3000);
    assert_eq!(port_from(Some("+3000")), 3000);
    assert_eq!(port_from(Some("65535")), 65535);
    assert_eq!(port_from(Some("65536")), 8080);
    assert_eq!(port_from(Some("0")), 0);
    assert_eq!(port_from(Some("")), 8080);
    assert_eq!(port_from(Some("+")), 8080);
    assert_eq!(port_from(Some("-1")), 8080);
    assert_eq!(port_from(Some(" 80")), 8080);
    assert_eq!(port_from(Some("99999999999999999999")), 8080);
    assert_eq!(port_from(Some("007")), 7);
}

#[test]
fn discovery_address() {
    assert_eq!(
        discovery_url(default_tenant_subdomain(), default_tenant_id()),
        "https://sociobotcustomers.ciamlogin.com/35c6fe40-0ec0-46b6-98c6-213ad4de6650/v2.0/.well-known/openid-configuration"
    );
    assert_eq!(default_client_id(), "25c704f4-465a-47af-80ab-2c489466b697");
}

#[test]
fn clock_readings() {
    assert!(now() > 1_600_000_000);
    assert_eq!(timestamp_from(None), 0);
    assert_eq!(timestamp_from(Some(42)), 42);
}
