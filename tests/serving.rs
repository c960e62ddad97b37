use r2_explorer::reply::{handle, health_body, health_reply, root_reply, BodyKind};
use r2_explorer::request_log::{log_request, region_label};
use r2_explorer::routes::{route, Endpoint, HEALTH_PATH, ROOT_PATH};
use r2_explorer::service::respond;
use r2_explorer::text::{decimal_string, text_equals};

fn json_field(body: &str, key: &str) -> String {
    let value: serde_json::Value = serde_json::from_str(body).unwrap();
    value.get(key).and_then(|v| v.as_str()).unwrap().to_string()
}

#[test]
fn get_root_answers_api_name() {
    let reply = respond("GET", "/", "0.1.0").unwrap();
    assert_eq!(reply.status, 200);
    assert_eq!(reply.kind, BodyKind::Text);
    assert_eq!(reply.body, "R2 File Explorer API");
}

#[test]
fn get_health_answers_json_report() {
    let reply = respond("GET", "/health", "0.1.0").unwrap();
    assert_eq!(reply.status, 200);
    assert_eq!(reply.kind, BodyKind::Json);
    assert_eq!(json_field(&reply.body, "status"), "healthy");
    assert_eq!(json_field(&reply.body, "version"), "0.1.0");
    let timestamp = json_field(&reply.body, "timestamp");
    assert!(chrono::DateTime::parse_from_rfc3339(&timestamp).is_ok());
    assert!(timestamp.ends_with("+00:00"));
}

#[test]
fn get_missing_is_left_to_router() {
    assert!(respond("GET", "/missing", "0.1.0").is_none());
}

#[test]
fn root_without_geolocation_logs_defaults() {
    let line = log_request(1700000000000, "/", "(0.0, 0.0)", None);
    assert_eq!(
        line,
        "1700000000000 - [/], located at: (0.0, 0.0), within: unknown region"
    );
    let reply = respond("GET", "/", "0.1.0").unwrap();
    assert_eq!(reply.status, 200);
    assert_eq!(reply.body, "R2 File Explorer API");
}

#[test]
fn log_line_with_region() {
    let line = log_request(42, "/health", "(51.5, -0.12)", Some("England".to_string()));
    assert_eq!(line, "42 - [/health], located at: (51.5, -0.12), within: England");
}

#[test]
fn region_label_defaults() {
    assert_eq!(region_label(None), "unknown region");
    assert_eq!(region_label(Some("Texas".to_string())), "Texas");
    assert_eq!(region_label(Some(String::new())), "");
}

#[test]
fn decimal_values() {
    assert_eq!(decimal_string(0), "0");
    assert_eq!(decimal_string(7), "7");
    assert_eq!(decimal_string(10), "10");
    assert_eq!(decimal_string(1234567890), "1234567890");
    assert_eq!(decimal_string(u64::MAX), "18446744073709551615");
}

#[test]
fn text_equality() {
    assert!(text_equals("", ""));
    assert!(text_equals("/health", "/health"));
    assert!(!text_equals("/health", "/healt"));
    assert!(!text_equals("/", "/health"));
    assert!(!text_equals("GET", "get"));
    assert!(text_equals("héllo", "héllo"));
}

#[test]
fn route_table() {
    assert_eq!(route("GET", ROOT_PATH), Some(Endpoint::Root));
    assert_eq!(route("GET", HEALTH_PATH), Some(Endpoint::Health));
    assert_eq!(route("POST", "/"), None);
    assert_eq!(route("HEAD", "/health"), None);
    assert_eq!(route("get", "/"), None);
    assert_eq!(route("GET", "/health/"), None);
    assert_eq!(route("GET", ""), None);
    assert_eq!(route("GET", "/missing"), None);
}

#[test]
fn unmatched_methods_are_left_to_router() {
    assert!(respond("POST", "/", "0.1.0").is_none());
    assert!(respond("DELETE", "/health", "0.1.0").is_none());
}

#[test]
fn root_reply_body() {
    let reply = root_reply();
    assert_eq!(reply.status, 200);
    assert_eq!(reply.kind, BodyKind::Text);
    assert_eq!(reply.body, "R2 File Explorer API");
}

#[test]
fn health_body_layout() {
    assert_eq!(
        health_body("\"t\"", "\"v\""),
        "{\"status\":\"healthy\",\"timestamp\":\"t\",\"version\":\"v\"}"
    );
}

#[test]
fn health_reply_exact() {
    let reply = health_reply("2024-01-02T03:04:05+00:00", "1.2.3");
    assert_eq!(reply.status, 200);
    assert_eq!(reply.kind, BodyKind::Json);
    assert_eq!(
        reply.body,
        "{\"status\":\"healthy\",\"timestamp\":\"2024-01-02T03:04:05+00:00\",\"version\":\"1.2.3\"}"
    );
}

#[test]
fn health_reply_escapes_version() {
    let reply = health_reply("2024-01-02T03:04:05.250+00:00", "a\"b\\c");
    assert_eq!(
        reply.body,
        "{\"status\":\"healthy\",\"timestamp\":\"2024-01-02T03:04:05.250+00:00\",\"version\":\"a\\\"b\\\\c\"}"
    );
    assert_eq!(json_field(&reply.body, "version"), "a\"b\\c");
}

#[test]
fn handle_each_endpoint() {
    let root = handle(Endpoint::Root, "9.9.9");
    assert_eq!(root.body, "R2 File Explorer API");
    let health = handle(Endpoint::Health, "9.9.9");
    assert_eq!(health.status, 200);
    assert_eq!(json_field(&health.body, "version"), "9.9.9");
    let timestamp = json_field(&health.body, "timestamp");
    assert!(chrono::DateTime::parse_from_rfc3339(&timestamp).is_ok());
}
