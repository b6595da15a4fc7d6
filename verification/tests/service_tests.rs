use rustecom::config::{database_path, default_database_url, DatabasePath};
use rustecom::error::ApiError;
use rustecom::ids::{uuid_from_text, uuid_text};
use rustecom::web::{cors_headers, is_preflight, log_line, request_event};

#[test]
fn database_url_forms() {
    assert_eq!(default_database_url(), "ecommerce.db");
    assert_eq!(database_path("sqlite:///var/db/shop.db"), DatabasePath::Absolute("/var/db/shop.db".to_string()));
    assert_eq!(database_path("sqlite://data/shop.db"), DatabasePath::UnderWorkingDir("data/shop.db".to_string()));
    assert_eq!(database_path("sqlite:/abs.db"), DatabasePath::Absolute("/abs.db".to_string()));
    assert_eq!(database_path("sqlite:rel.db"), DatabasePath::UnderWorkingDir("rel.db".to_string()));
    assert_eq!(database_path("ecommerce.db"), DatabasePath::UnderWorkingDir("ecommerce.db".to_string()));
    assert_eq!(database_path("sqlite:"), DatabasePath::UnderWorkingDir(String::new()));
}

#[test]
fn cors_headers_and_preflight() {
    let h = cors_headers();
    assert_eq!(h[0], ("access-control-allow-origin".to_string(), "*".to_string()));
    assert_eq!(h[1].1, "GET, POST, PUT, DELETE, OPTIONS");
    assert_eq!(h[2].0, "access-control-allow-headers");
    assert!(is_preflight("OPTIONS"));
    assert!(!is_preflight("GET"));
    assert!(!is_preflight("options"));
}

#[test]
fn log_lines() {
    assert_eq!(request_event("GET", "/api/products?limit=5"), "GET /api/products?limit=5");
    assert_eq!(log_line("2024-01-01 10:00:00.000", "boot"), "[2024-01-01 10:00:00.000] boot\n");
}

#[test]
fn uuid_text_round_trip() {
    let v = 0x550e8400e29b41d4a716446655440000u128;
    let t = uuid_text(v);
    assert_eq!(t, "550e8400-e29b-41d4-a716-446655440000");
    assert_eq!(uuid_from_text(&t), Some(v));
    assert_eq!(uuid_from_text("550E8400E29B41D4A716446655440000"), Some(v));
    assert_eq!(uuid_from_text("nope"), None);
}

#[test]
fn error_constructors() {
    assert_eq!(ApiError::bad_request("x".to_string()).status, 400);
    assert_eq!(ApiError::not_found("x".to_string()).status, 404);
    let e = ApiError::internal("boom".to_string());
    assert_eq!(e.status, 500);
    assert_eq!(e.message, "boom");
}
