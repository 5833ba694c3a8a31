use pulse::monitor::check::{check_outcome, plan_check, request_method, CheckMethod, CheckPlan};
use pulse::monitor::config::{AppConfig, AppSettings, HeaderPair, ServiceConfig};
use pulse::monitor::process::MAX_HISTORY;
use pulse::monitor::safety::{is_safe_url, validate_service};
use pulse::monitor::schedule::MonitorSchedule;
use pulse::monitor::store::{current_time, AppState, CheckRecord, CheckResult, ServiceStatus};

fn valid_service() -> ServiceConfig {
    ServiceConfig {
        id: "test-id".to_string(),
        name: "Test Service".to_string(),
        url: "https://example.com".to_string(),
        method: "GET".to_string(),
        interval_secs: 30,
        timeout_secs: 10,
        expected_status: 200,
        headers: Vec::new(),
        body: None,
    }
}

fn test_config_with_services(services: Vec<ServiceConfig>) -> AppConfig {
    AppConfig { services, settings: AppSettings::default() }
}

fn make_service(id: &str, name: &str, url: &str) -> ServiceConfig {
    ServiceConfig {
        id: id.to_string(),
        name: name.to_string(),
        url: url.to_string(),
        method: "GET".to_string(),
        interval_secs: 30,
        timeout_secs: 10,
        expected_status: 200,
        headers: Vec::new(),
        body: None,
    }
}

fn make_check_record(service_id: &str, healthy: bool, response_time_ms: u64) -> CheckRecord {
    CheckRecord {
        service_id: service_id.to_string(),
        healthy,
        response_time_ms,
        status: if healthy { 200 } else { 500 },
        checked_at: chrono::Utc::now().to_rfc3339(),
    }
}

fn make_check_record_with_time(
    service_id: &str,
    healthy: bool,
    response_time_ms: u64,
    checked_at: &str,
) -> CheckRecord {
    CheckRecord {
        service_id: service_id.to_string(),
        healthy,
        response_time_ms,
        status: if healthy { 200 } else { 500 },
        checked_at: checked_at.to_string(),
    }
}

fn make_check_result(service_id: &str, healthy: bool) -> CheckResult {
    CheckResult {
        service_id: service_id.to_string(),
        name: "Test".to_string(),
        url: "https://example.com".to_string(),
        status: if healthy { 200 } else { 500 },
        healthy,
        response_time_ms: 100,
        error: if healthy { None } else { Some("error".to_string()) },
        checked_at: chrono::Utc::now().to_rfc3339(),
    }
}

/// The uptime percentage the status view shows for a summary.
fn uptime_pct(s: &ServiceStatus) -> f64 {
    if s.total_checks == 0 {
        100.0
    } else {
        ((s.total_checks - s.failed_checks) as f64 / s.total_checks as f64) * 100.0
    }
}

#[test]
fn safe_url_allows_https() {
    assert!(is_safe_url("https://api.github.com"));
    assert!(is_safe_url("https://www.google.com/health"));
    assert!(is_safe_url("http://example.com/api"));
}

#[test]
fn safe_url_blocks_localhost() {
    assert!(!is_safe_url("http://localhost"));
    assert!(!is_safe_url("http://localhost:8080"));
    assert!(!is_safe_url("https://localhost/api"));
}

#[test]
fn safe_url_blocks_loopback_ip() {
    assert!(!is_safe_url("http://127.0.0.1"));
    assert!(!is_safe_url("http://127.0.0.1:3000"));
    assert!(!is_safe_url("http://127.0.0.255"));
}

#[test]
fn safe_url_blocks_private_networks() {
    assert!(!is_safe_url("http://10.0.0.1"));
    assert!(!is_safe_url("http://10.255.255.255"));
    assert!(!is_safe_url("http://192.168.0.1"));
    assert!(!is_safe_url("http://192.168.1.100"));
    assert!(!is_safe_url("http://172.16.0.1"));
    assert!(!is_safe_url("http://172.31.255.255"));
}

#[test]
fn safe_url_allows_public_172() {
    assert!(is_safe_url("http://172.15.0.1"));
    assert!(is_safe_url("http://172.32.0.1"));
}

#[test]
fn safe_url_blocks_ipv6_loopback() {
    assert!(!is_safe_url("http://[::1]"));
    assert!(!is_safe_url("http://[::]"));
    assert!(!is_safe_url("http://[::ffff:127.0.0.1]"));
}

#[test]
fn safe_url_blocks_non_http_schemes() {
    assert!(!is_safe_url("ftp://example.com"));
    assert!(!is_safe_url("file:///etc/passwd"));
    assert!(!is_safe_url("javascript:alert(1)"));
    assert!(!is_safe_url("data:text/html,<h1>hi</h1>"));
}

#[test]
fn safe_url_blocks_invalid_input() {
    assert!(!is_safe_url(""));
    assert!(!is_safe_url("not a url"));
    assert!(!is_safe_url("://missing-scheme"));
}

#[test]
fn safe_url_blocks_link_local() {
    assert!(!is_safe_url("http://169.254.1.1"));
    assert!(!is_safe_url("http://169.254.169.254"));
}

#[test]
fn safe_url_blocks_internal_tlds() {
    assert!(!is_safe_url("http://myserver.local"));
    assert!(!is_safe_url("http://service.internal"));
}

#[test]
fn safe_url_blocks_all_zeros() {
    assert!(!is_safe_url("http://0.0.0.0"));
}

#[test]
fn safe_url_blocks_ipv6_ula() {
    assert!(!is_safe_url("http://[fc00::1]"));
    assert!(!is_safe_url("http://[fd00::1]"));
    assert!(!is_safe_url("http://[fc00:abcd:1234::1]"));
    assert!(!is_safe_url("http://[FD12:3456::1]"));
}

#[test]
fn safe_url_allows_public_names_that_look_like_ipv6_prefixes() {
    assert!(is_safe_url("https://fdic.gov"));
    assert!(is_safe_url("https://febreze.com"));
    assert!(is_safe_url("https://fc.example.org/health"));
    assert!(is_safe_url("http://fe80.example.com"));
    assert!(!is_safe_url("http://[fe80::1]"));
    assert!(!is_safe_url("http://[fd00::1]:8080/x"));
}

#[test]
fn safe_url_blocks_ipv6_link_local() {
    assert!(!is_safe_url("http://[fe80::1]"));
    assert!(!is_safe_url("http://[fe80::1%25eth0]"));
    assert!(!is_safe_url("http://[fe90::abcd]"));
    assert!(!is_safe_url("http://[fea0::1234]"));
    assert!(!is_safe_url("http://[feb0::5678]"));
    assert!(!is_safe_url("http://[FE80::1]"));
}

#[test]
fn validate_service_valid_input() {
    let svc = valid_service();
    assert!(validate_service(&svc).is_ok());
}

#[test]
fn validate_service_valid_with_post_and_body() {
    let svc = ServiceConfig {
        method: "POST".to_string(),
        body: Some(r#"{"key":"value"}"#.to_string()),
        headers: vec![HeaderPair {
            key: "Content-Type".to_string(),
            value: "application/json".to_string(),
        }],
        ..valid_service()
    };
    assert!(validate_service(&svc).is_ok());
}

#[test]
fn validate_service_empty_name_rejected() {
    let svc = ServiceConfig { name: "".to_string(), ..valid_service() };
    assert!(validate_service(&svc).is_err());
}

#[test]
fn validate_service_whitespace_name_rejected() {
    let svc = ServiceConfig { name: "   ".to_string(), ..valid_service() };
    assert!(validate_service(&svc).is_err());
}

#[test]
fn validate_service_empty_url_rejected() {
    let svc = ServiceConfig { url: "".to_string(), ..valid_service() };
    assert!(validate_service(&svc).is_err());
}

#[test]
fn validate_service_invalid_url_format_rejected() {
    let svc = ServiceConfig { url: "not-a-url".to_string(), ..valid_service() };
    assert!(validate_service(&svc).is_err());
}

#[test]
fn validate_service_localhost_rejected() {
    let svc = ServiceConfig { url: "http://localhost/api".to_string(), ..valid_service() };
    assert!(validate_service(&svc).is_err());
}

#[test]
fn validate_service_loopback_127_rejected() {
    let svc = ServiceConfig { url: "http://127.0.0.1/api".to_string(), ..valid_service() };
    assert!(validate_service(&svc).is_err());
}

#[test]
fn validate_service_10_network_rejected() {
    let svc = ServiceConfig { url: "http://10.0.0.1/api".to_string(), ..valid_service() };
    assert!(validate_service(&svc).is_err());
}

#[test]
fn validate_service_192_168_network_rejected() {
    let svc = ServiceConfig { url: "http://192.168.1.1/api".to_string(), ..valid_service() };
    assert!(validate_service(&svc).is_err());
}

#[test]
fn validate_service_172_16_network_rejected() {
    let svc = ServiceConfig { url: "http://172.16.0.1/api".to_string(), ..valid_service() };
    assert!(validate_service(&svc).is_err());
}

#[test]
fn validate_service_172_31_network_rejected() {
    let svc = ServiceConfig { url: "http://172.31.255.255/api".to_string(), ..valid_service() };
    assert!(validate_service(&svc).is_err());
}

#[test]
fn validate_service_172_32_network_allowed() {
    let svc = ServiceConfig { url: "http://172.32.0.1/api".to_string(), ..valid_service() };
    assert!(validate_service(&svc).is_ok());
}

#[test]
fn validate_service_invalid_method_rejected() {
    let svc = ServiceConfig { method: "TRACE".to_string(), ..valid_service() };
    assert!(validate_service(&svc).is_err());
}

#[test]
fn validate_service_all_valid_methods_accepted() {
    for method in &["GET", "POST", "PUT", "HEAD", "DELETE", "PATCH", "OPTIONS"] {
        let svc = ServiceConfig { method: method.to_string(), ..valid_service() };
        assert!(validate_service(&svc).is_ok(), "method {} should be valid", method);
    }
}

#[test]
fn validate_service_interval_below_5_rejected() {
    let svc = ServiceConfig { interval_secs: 4, ..valid_service() };
    assert!(validate_service(&svc).is_err());
}

#[test]
fn validate_service_interval_at_5_accepted() {
    let svc = ServiceConfig { interval_secs: 5, ..valid_service() };
    assert!(validate_service(&svc).is_ok());
}

#[test]
fn validate_service_timeout_zero_rejected() {
    let svc = ServiceConfig { timeout_secs: 0, ..valid_service() };
    assert!(validate_service(&svc).is_err());
}

#[test]
fn validate_service_timeout_121_rejected() {
    let svc = ServiceConfig { timeout_secs: 121, ..valid_service() };
    assert!(validate_service(&svc).is_err());
}

#[test]
fn validate_service_timeout_boundaries_accepted() {
    let svc1 = ServiceConfig { timeout_secs: 1, ..valid_service() };
    assert!(validate_service(&svc1).is_ok());
    let svc120 = ServiceConfig { timeout_secs: 120, ..valid_service() };
    assert!(validate_service(&svc120).is_ok());
}

#[test]
fn validate_service_expected_status_below_100_rejected() {
    let svc = ServiceConfig { expected_status: 99, ..valid_service() };
    assert!(validate_service(&svc).is_err());
}

#[test]
fn validate_service_expected_status_above_599_rejected() {
    let svc = ServiceConfig { expected_status: 600, ..valid_service() };
    assert!(validate_service(&svc).is_err());
}

#[test]
fn validate_service_expected_status_boundaries_accepted() {
    let svc100 = ServiceConfig { expected_status: 100, ..valid_service() };
    assert!(validate_service(&svc100).is_ok());
    let svc599 = ServiceConfig { expected_status: 599, ..valid_service() };
    assert!(validate_service(&svc599).is_ok());
}

#[test]
fn validate_service_header_newline_in_value_rejected() {
    let svc = ServiceConfig {
        headers: vec![HeaderPair { key: "X-Custom".to_string(), value: "value\ninjection".to_string() }],
        ..valid_service()
    };
    assert!(validate_service(&svc).is_err());
}

#[test]
fn validate_service_empty_header_key_rejected() {
    let svc = ServiceConfig {
        headers: vec![HeaderPair { key: "".to_string(), value: "value".to_string() }],
        ..valid_service()
    };
    assert!(validate_service(&svc).is_err());
}

#[test]
fn validate_service_whitespace_header_key_rejected() {
    let svc = ServiceConfig {
        headers: vec![HeaderPair { key: "   ".to_string(), value: "value".to_string() }],
        ..valid_service()
    };
    assert!(validate_service(&svc).is_err());
}

#[test]
fn validate_service_header_cr_in_key_rejected() {
    let svc = ServiceConfig {
        headers: vec![HeaderPair { key: "X-Custom\r".to_string(), value: "value".to_string() }],
        ..valid_service()
    };
    assert!(validate_service(&svc).is_err());
}

#[test]
fn validate_service_body_exceeds_1mb_rejected() {
    let svc = ServiceConfig { body: Some("x".repeat(1_048_577)), ..valid_service() };
    assert!(validate_service(&svc).is_err());
}

#[test]
fn validate_service_body_exactly_1mb_accepted() {
    let svc = ServiceConfig { body: Some("x".repeat(1_048_576)), ..valid_service() };
    assert!(validate_service(&svc).is_ok());
}

#[test]
fn validate_service_error_messages() {
    let svc = ServiceConfig { name: " \t".to_string(), ..valid_service() };
    assert_eq!(validate_service(&svc).unwrap_err(), "服务名称不能为空");
    let svc = ServiceConfig { url: "not-a-url".to_string(), ..valid_service() };
    assert_eq!(validate_service(&svc).unwrap_err(), "URL 格式无效: not-a-url");
    let svc = ServiceConfig { url: "http://10.1.2.3".to_string(), ..valid_service() };
    assert_eq!(validate_service(&svc).unwrap_err(), "不允许监控内网地址");
    let svc = ServiceConfig { method: "TRACE".to_string(), ..valid_service() };
    assert_eq!(validate_service(&svc).unwrap_err(), "不支持的 HTTP 方法: TRACE");
    let svc = ServiceConfig { body: Some("é".repeat(524_289)), ..valid_service() };
    assert_eq!(validate_service(&svc).unwrap_err(), "请求体不能超过 1MB");
}

#[test]
fn all_statuses_empty_services_empty_history() {
    let state = AppState::new(test_config_with_services(vec![]));
    let statuses = state.all_statuses();
    assert!(statuses.is_empty());
}

#[test]
fn all_statuses_single_service_multiple_records() {
    let svc = make_service("s1", "Service 1", "https://example.com");
    let mut state = AppState::new(test_config_with_services(vec![svc]));
    state.history = vec![
        make_check_record("s1", true, 100),
        make_check_record("s1", true, 200),
        make_check_record("s1", false, 300),
        make_check_record("s1", true, 400),
    ];
    let statuses = state.all_statuses();
    assert_eq!(statuses.len(), 1);
    let s = &statuses[0];
    assert_eq!(s.service_id, "s1");
    assert_eq!(s.name, "Service 1");
    assert_eq!(s.url, "https://example.com");
    assert_eq!(s.total_checks, 4);
    assert_eq!(s.failed_checks, 1);
    assert!((uptime_pct(s) - 75.0).abs() < 0.001);
    assert_eq!(s.avg_response_ms, 250);
}

#[test]
fn all_statuses_multiple_services_independent() {
    let svc1 = make_service("s1", "Service 1", "https://example.com");
    let svc2 = make_service("s2", "Service 2", "https://example.org");
    let mut state = AppState::new(test_config_with_services(vec![svc1, svc2]));
    state.history = vec![
        make_check_record("s1", true, 100),
        make_check_record("s1", true, 200),
        make_check_record("s2", false, 50),
        make_check_record("s2", true, 150),
        make_check_record("s2", true, 250),
    ];
    let statuses = state.all_statuses();
    assert_eq!(statuses.len(), 2);
    let s1 = statuses.iter().find(|s| s.service_id == "s1").unwrap();
    assert_eq!(s1.total_checks, 2);
    assert_eq!(s1.failed_checks, 0);
    assert!((uptime_pct(s1) - 100.0).abs() < 0.001);
    assert_eq!(s1.avg_response_ms, 150);
    let s2 = statuses.iter().find(|s| s.service_id == "s2").unwrap();
    assert_eq!(s2.total_checks, 3);
    assert_eq!(s2.failed_checks, 1);
    assert!((uptime_pct(s2) - 66.666).abs() < 0.1);
    assert_eq!(s2.avg_response_ms, 150);
}

#[test]
fn all_statuses_service_no_history() {
    let svc = make_service("s1", "Service 1", "https://example.com");
    let state = AppState::new(test_config_with_services(vec![svc]));
    let statuses = state.all_statuses();
    assert_eq!(statuses.len(), 1);
    let s = &statuses[0];
    assert_eq!(s.total_checks, 0);
    assert_eq!(s.failed_checks, 0);
    assert_eq!(uptime_pct(s), 100.0);
    assert_eq!(s.avg_response_ms, 0);
}

#[test]
fn prune_history_removes_old_records() {
    let svc = make_service("s1", "Service 1", "https://example.com");
    let mut state = AppState::new(test_config_with_services(vec![svc]));
    let old_date = (chrono::Utc::now() - chrono::Duration::days(10)).to_rfc3339();
    let recent_date = (chrono::Utc::now() - chrono::Duration::days(1)).to_rfc3339();
    state.history = vec![
        make_check_record_with_time("s1", true, 100, &old_date),
        make_check_record_with_time("s1", true, 200, &recent_date),
    ];
    state.prune_history(7);
    assert_eq!(state.history.len(), 1);
    assert_eq!(state.history[0].response_time_ms, 200);
}

#[test]
fn prune_history_days_capped_at_365() {
    let svc = make_service("s1", "Service 1", "https://example.com");
    let mut state = AppState::new(test_config_with_services(vec![svc]));
    let date_500_days_ago = (chrono::Utc::now() - chrono::Duration::days(500)).to_rfc3339();
    state.history = vec![make_check_record_with_time("s1", true, 100, &date_500_days_ago)];
    state.prune_history(1000);
    assert_eq!(state.history.len(), 0);
    state.history = vec![make_check_record_with_time(
        "s1",
        true,
        100,
        &(chrono::Utc::now() - chrono::Duration::days(300)).to_rfc3339(),
    )];
    state.prune_history(1000);
    assert_eq!(state.history.len(), 1);
}

#[test]
fn prune_history_keeps_unparseable_records() {
    let svc = make_service("s1", "Service 1", "https://example.com");
    let mut state = AppState::new(test_config_with_services(vec![svc]));
    state.history = vec![
        CheckRecord {
            service_id: "s1".to_string(),
            healthy: true,
            response_time_ms: 100,
            status: 200,
            checked_at: "not-a-valid-date".to_string(),
        },
        make_check_record_with_time(
            "s1",
            true,
            200,
            &(chrono::Utc::now() - chrono::Duration::days(100)).to_rfc3339(),
        ),
    ];
    state.prune_history(7);
    assert_eq!(state.history.len(), 1);
    assert_eq!(state.history[0].checked_at, "not-a-valid-date");
}

#[test]
fn health_summary_empty_services() {
    let state = AppState::new(test_config_with_services(vec![]));
    let (healthy, total) = state.health_summary();
    assert_eq!(healthy, 0);
    assert_eq!(total, 0);
}

#[test]
fn health_summary_all_healthy() {
    let svc1 = make_service("s1", "Service 1", "https://example.com");
    let svc2 = make_service("s2", "Service 2", "https://example.org");
    let mut state = AppState::new(test_config_with_services(vec![svc1, svc2]));
    state.latest_results.insert("s1".to_string(), make_check_result("s1", true));
    state.latest_results.insert("s2".to_string(), make_check_result("s2", true));
    let (healthy, total) = state.health_summary();
    assert_eq!(healthy, 2);
    assert_eq!(total, 2);
}

#[test]
fn health_summary_partial_healthy() {
    let svc1 = make_service("s1", "Service 1", "https://example.com");
    let svc2 = make_service("s2", "Service 2", "https://example.org");
    let svc3 = make_service("s3", "Service 3", "https://example.net");
    let mut state = AppState::new(test_config_with_services(vec![svc1, svc2, svc3]));
    state.latest_results.insert("s1".to_string(), make_check_result("s1", true));
    state.latest_results.insert("s2".to_string(), make_check_result("s2", false));
    let (healthy, total) = state.health_summary();
    assert_eq!(healthy, 1);
    assert_eq!(total, 3);
}

#[test]
fn all_healthy_empty_services() {
    let state = AppState::new(test_config_with_services(vec![]));
    assert!(state.all_healthy());
}

#[test]
fn all_healthy_all_have_healthy_results() {
    let svc1 = make_service("s1", "Service 1", "https://example.com");
    let svc2 = make_service("s2", "Service 2", "https://example.org");
    let mut state = AppState::new(test_config_with_services(vec![svc1, svc2]));
    state.latest_results.insert("s1".to_string(), make_check_result("s1", true));
    state.latest_results.insert("s2".to_string(), make_check_result("s2", true));
    assert!(state.all_healthy());
}

#[test]
fn all_healthy_some_missing_results() {
    let svc1 = make_service("s1", "Service 1", "https://example.com");
    let svc2 = make_service("s2", "Service 2", "https://example.org");
    let mut state = AppState::new(test_config_with_services(vec![svc1, svc2]));
    state.latest_results.insert("s1".to_string(), make_check_result("s1", true));
    assert!(!state.all_healthy());
}

#[test]
fn all_healthy_some_unhealthy() {
    let svc1 = make_service("s1", "Service 1", "https://example.com");
    let svc2 = make_service("s2", "Service 2", "https://example.org");
    let mut state = AppState::new(test_config_with_services(vec![svc1, svc2]));
    state.latest_results.insert("s1".to_string(), make_check_result("s1", true));
    state.latest_results.insert("s2".to_string(), make_check_result("s2", false));
    assert!(!state.all_healthy());
}

#[test]
fn record_results_alerts_on_transitions_only() {
    let svc1 = make_service("s1", "Service 1", "https://example.com");
    let mut state = AppState::new(test_config_with_services(vec![svc1]));
    let cutoff = (0i64, 0u32);
    let out = state.record_results(&[make_check_result("s1", true)], cutoff);
    assert!(out.alerts.is_empty());
    assert!(!out.was_all_healthy);
    assert!(out.all_healthy);
    assert!(out.health_changed());
    let out = state.record_results(&[make_check_result("s1", false)], cutoff);
    assert_eq!(out.alerts.len(), 1);
    assert!(out.alerts[0].is_down);
    assert_eq!(out.alerts[0].error, "error");
    assert_eq!(out.alerts[0].kind(), "down");
    assert_eq!(out.alerts[0].title(), "Test 已宕机");
    assert_eq!(out.alerts[0].reported_error().as_deref(), Some("error"));
    let out = state.record_results(&[make_check_result("s1", false)], cutoff);
    assert!(out.alerts.is_empty());
    assert!(!out.health_changed());
    let out = state.record_results(&[make_check_result("s1", true)], cutoff);
    assert_eq!(out.alerts.len(), 1);
    assert!(!out.alerts[0].is_down);
    assert_eq!(out.alerts[0].error, "");
    assert_eq!(out.alerts[0].kind(), "recovered");
    assert_eq!(out.alerts[0].title(), "Test 已恢复");
    assert_eq!(out.alerts[0].reported_error(), None);
    assert_eq!(state.history.len(), 4);
    assert!(state.latest_results.get("s1").unwrap().healthy);
}

#[test]
fn record_results_without_notifications_raises_no_alerts() {
    let mut settings = AppSettings::default();
    settings.notifications_enabled = false;
    let mut state = AppState::new(AppConfig { services: vec![make_service("s1", "S", "https://e.com")], settings });
    let out = state.record_results(&[make_check_result("s1", false)], (0, 0));
    assert!(out.alerts.is_empty());
}

#[test]
fn record_results_keeps_newest_history() {
    let mut state = AppState::new(test_config_with_services(vec![make_service("s1", "S", "https://e.com")]));
    for i in 0..(MAX_HISTORY as u64 + 3) {
        state.history.push(make_check_record("s1", true, i));
    }
    state.record_results(&[make_check_result("s1", true)], (0, 0));
    assert_eq!(state.history.len(), MAX_HISTORY);
    assert_eq!(state.history[0].response_time_ms, 4);
    assert_eq!(state.history[MAX_HISTORY - 1].response_time_ms, 100);
}

#[test]
fn add_update_remove_service() {
    let mut state = AppState::new(test_config_with_services(vec![]));
    let added = state.add_service(ServiceConfig { id: String::new(), ..valid_service() }).unwrap();
    assert_eq!(added.id.len(), 36);
    assert_eq!(state.services.len(), 1);
    assert!(state.add_service(ServiceConfig { url: "http://localhost".into(), ..valid_service() }).is_err());
    let id = added.id.clone();
    let updated = ServiceConfig { id: id.clone(), name: "Renamed".into(), ..valid_service() };
    assert!(state.update_service(updated).is_ok());
    assert_eq!(state.services[0].name, "Renamed");
    assert_eq!(
        state.update_service(ServiceConfig { id: "nope".into(), ..valid_service() }).unwrap_err(),
        "服务不存在"
    );
    state.latest_results.insert(id.clone(), make_check_result(&id, true));
    state.history.push(make_check_record(&id, true, 5));
    state.history.push(make_check_record("other", true, 5));
    state.remove_service(&id);
    assert!(state.services.is_empty());
    assert!(state.latest_results.get(&id).is_none());
    assert_eq!(state.history.len(), 1);
}

#[test]
fn add_service_limit_is_one_hundred() {
    let mut state = AppState::new(test_config_with_services(vec![]));
    for i in 0..100 {
        let svc = ServiceConfig { id: format!("id{}", i), ..valid_service() };
        assert!(state.add_service(svc).is_ok());
    }
    let err = state.add_service(valid_service()).unwrap_err();
    assert_eq!(err, "服务数量已达上限 (100)");
}

#[test]
fn history_newest_first_limits() {
    let mut state = AppState::new(test_config_with_services(vec![]));
    for i in 0..5 {
        state.history.push(make_check_record("s", true, i));
    }
    let all = state.history_newest_first(None);
    assert_eq!(all.len(), 5);
    assert_eq!(all[0].response_time_ms, 4);
    let two = state.history_newest_first(Some(2));
    assert_eq!(two.len(), 2);
    assert_eq!(two[1].response_time_ms, 3);
}

#[test]
fn schedule_checks_each_service_once_per_interval() {
    let services = vec![make_service("a", "A", "https://a.com"), ServiceConfig { interval_secs: 2, ..make_service("b", "B", "https://b.com") }];
    let mut schedule = MonitorSchedule::new();
    let second: u64 = 1_000_000_000;
    assert_eq!(schedule.due_services(&services, 0).len(), 2);
    assert_eq!(schedule.due_services(&services, 4 * second).len(), 0);
    let due = schedule.due_services(&services, 5 * second);
    assert_eq!(due.len(), 1);
    assert_eq!(due[0].id, "b");
    let due = schedule.due_services(&services, 9 * second);
    assert_eq!(due.len(), 0);
    let due = schedule.due_services(&services, 30 * second);
    assert_eq!(due.len(), 2);
    assert_eq!(due[0].id, "a");
    assert_eq!(due[1].id, "b");
    let only_a = vec![make_service("a", "A", "https://a.com")];
    schedule.due_services(&only_a, 31 * second);
    assert!(schedule.last_check_times.get("b").is_none());
}

#[test]
fn check_plan_and_outcome() {
    match plan_check(&ServiceConfig { url: "http://127.0.0.1".into(), ..valid_service() }) {
        CheckPlan::Refuse(r) => {
            assert!(chrono::DateTime::parse_from_rfc3339(&r.checked_at).is_ok());
            assert!(!r.healthy);
            assert_eq!(r.status, 0);
            assert_eq!(r.error.as_deref(), Some("不允许监控内网地址"));
        }
        CheckPlan::Send(_) => panic!("internal address must be refused"),
    }
    match plan_check(&ServiceConfig { method: "PATCH".into(), timeout_secs: 0, ..valid_service() }) {
        CheckPlan::Send(req) => {
            assert!(req.method == CheckMethod::Patch);
            assert_eq!(req.timeout_secs, 1);
        }
        CheckPlan::Refuse(_) => panic!("public address must be sent"),
    }
    assert!(request_method("BREW") == CheckMethod::Get);
    let svc = valid_service();
    let ok = check_outcome(&svc, Ok(200), 12);
    assert!(ok.healthy);
    assert_eq!(ok.error, None);
    let bad = check_outcome(&svc, Ok(503), 12);
    assert!(!bad.healthy);
    assert_eq!(bad.error.as_deref(), Some("期望状态 200, 实际 503"));
    let failed = check_outcome(&svc, Err("timeout".to_string()), 7);
    assert_eq!(failed.status, 0);
    assert_eq!(failed.response_time_ms, 7);
}

#[test]
fn default_monitor_config() {
    let c = AppConfig::default();
    assert_eq!(c.services.len(), 2);
    assert_eq!(c.services[0].name, "百度");
    assert_eq!(c.services[1].url, "https://www.bilibili.com");
    assert_ne!(c.services[0].id, c.services[1].id);
    assert_eq!(c.settings.history_days, 7);
}

#[test]
fn all_statuses_mean_of_huge_response_times() {
    let svc = make_service("s1", "Service 1", "https://example.com");
    let mut state = AppState::new(AppConfig { services: vec![svc], settings: AppSettings::default() });
    state.history = vec![
        CheckRecord {
            service_id: "s1".to_string(),
            healthy: true,
            response_time_ms: u64::MAX,
            status: 200,
            checked_at: "2024-01-01T00:00:00Z".to_string(),
        },
        CheckRecord {
            service_id: "s1".to_string(),
            healthy: false,
            response_time_ms: u64::MAX - 2,
            status: 500,
            checked_at: "2024-01-01T00:00:01Z".to_string(),
        },
    ];
    let statuses = state.all_statuses();
    assert_eq!(statuses[0].total_checks, 2);
    assert_eq!(statuses[0].failed_checks, 1);
    assert_eq!(statuses[0].avg_response_ms, u64::MAX - 1);
}

#[test]
fn current_time_text_reads_back_as_its_instant() {
    let now = current_time();
    assert!(now.secs > 0);
    assert!(now.nanos < 1_000_000_000);
    let parsed = chrono::DateTime::parse_from_rfc3339(&now.rfc3339).unwrap();
    assert_eq!(parsed.timestamp(), now.secs);
    assert_eq!(parsed.timestamp_subsec_nanos(), now.nanos);
    let svc = make_service("s1", "S", "https://example.com");
    let outcome = check_outcome(&svc, Ok(200), 3);
    assert!(chrono::DateTime::parse_from_rfc3339(&outcome.checked_at).is_ok());
}

#[test]
fn consecutive_checks_are_an_interval_apart() {
    let services = vec![ServiceConfig { interval_secs: 10, ..make_service("a", "A", "https://a.com") }];
    let mut schedule = MonitorSchedule::new();
    let second: u64 = 1_000_000_000;
    assert_eq!(schedule.due_services(&services, 3 * second).len(), 1);
    assert_eq!(schedule.due_services(&services, 13 * second - 1).len(), 0);
    assert_eq!(schedule.due_services(&services, 13 * second).len(), 1);
    assert_eq!(schedule.due_services(&services, 22 * second).len(), 0);
}
