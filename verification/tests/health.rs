use flight_lookup::health::{
    health_check, health_request, health_url, HealthReply, ServiceStatus,
};
use flight_lookup::upstream::Provider;

#[test]
fn health_url_follows_the_endpoint() {
    assert_eq!(
        health_url("https://api.example.com"),
        "https://api.example.com/health/services/feeds/FlightSchedules"
    );
    assert_eq!(health_url(""), "/health/services/feeds/FlightSchedules");
}

#[test]
fn health_reports_the_providers_status() {
    let report =
        ServiceStatus { service: "FlightSchedules".to_string(), status: "OK".to_string() };
    assert_eq!(health_check(HealthReply::Report(report)), "OK");
    let down =
        ServiceStatus { service: "FlightSchedules".to_string(), status: "Degraded".to_string() };
    assert_eq!(health_check(HealthReply::Report(down)), "Degraded");
}

#[test]
fn health_without_report_is_api_down() {
    assert_eq!(health_check(HealthReply::Unparsable), "API Down");
}

#[test]
fn health_without_response_is_network_issue() {
    assert_eq!(health_check(HealthReply::Unreachable), "Network Issue");
}

#[test]
fn service_status_defaults_to_empty() {
    let status = ServiceStatus::default();
    assert_eq!(status.service, "");
    assert_eq!(status.status, "");
}

#[test]
fn health_request_carries_the_key_and_forbids_redirects() {
    let provider =
        Provider { endpoint: "https://api.example.test".to_string(), api_key: "k1".to_string() };
    let request = health_request(&provider);
    assert_eq!(request.url, "https://api.example.test/health/services/feeds/FlightSchedules");
    assert_eq!(request.header_name, "x-provider-api-key");
    assert_eq!(request.header_value, "k1");
    assert!(!request.follow_redirects);
}
