use like_service::config::{parse_port, Config};
use like_service::error::{status_of, LikesError, RpcCode};
use like_service::like::{Like, PaginatedResult, PaginationParams};
use like_service::clients::PostMetadata;
use like_service::database::{select_engine, EngineSelection};
use like_service::timestamp::Timestamp;

#[test]
fn pagination_clamps_low_page_and_limit() {
    let p = PaginationParams::new(0, 0);
    assert_eq!(p.page, 1);
    assert_eq!(p.limit, 10);
    let p = PaginationParams::new(-7, -3);
    assert_eq!(p.page, 1);
    assert_eq!(p.limit, 10);
}

#[test]
fn pagination_clamps_high_limit() {
    let p = PaginationParams::new(5, 500);
    assert_eq!(p.page, 5);
    assert_eq!(p.limit, 100);
    let p = PaginationParams::new(5, 101);
    assert_eq!(p.limit, 100);
}

#[test]
fn pagination_keeps_values_in_range() {
    let p = PaginationParams::new(2, 50);
    assert_eq!(p.page, 2);
    assert_eq!(p.limit, 50);
    assert_eq!(p.offset(), 50);
    let p = PaginationParams::new(1, 100);
    assert_eq!(p.limit, 100);
    assert_eq!(p.offset(), 0);
}

#[test]
fn total_pages_is_ceiling_of_count_over_limit() {
    let params = PaginationParams::new(1, 10);
    let r: PaginatedResult<u32> = PaginatedResult::new(Vec::new(), 25, &params);
    assert_eq!(r.total_pages, 3);
    assert_eq!(r.total_count, 25);
    assert_eq!(r.current_page, 1);
    assert_eq!(r.limit, 10);
}

#[test]
fn total_pages_edge_values() {
    let params = PaginationParams::new(1, 10);
    let r: PaginatedResult<u32> = PaginatedResult::new(Vec::new(), 0, &params);
    assert_eq!(r.total_pages, 0);
    let r: PaginatedResult<u32> = PaginatedResult::new(Vec::new(), 100, &params);
    assert_eq!(r.total_pages, 10);
    let r: PaginatedResult<u32> = PaginatedResult::new(Vec::new(), 101, &params);
    assert_eq!(r.total_pages, 11);
    let r: PaginatedResult<u32> = PaginatedResult::new(Vec::new(), 1, &params);
    assert_eq!(r.total_pages, 1);
}

#[test]
fn new_like_has_fresh_id_and_one_instant() {
    let like = Like::new("alice".to_string(), 5);
    assert_eq!(like.user_id, "alice");
    assert_eq!(like.post_id, 5);
    assert_eq!(like.id.chars().count(), 36);
    assert_eq!(like.liked_at, like.created_at);
    assert_eq!(like.liked_at, like.updated_at);
}

#[test]
fn two_likes_get_different_ids() {
    let a = Like::new("alice".to_string(), 1);
    let b = Like::new("alice".to_string(), 2);
    assert_ne!(a.id, b.id);
}

#[test]
fn timestamp_order_compares_seconds_then_nanos() {
    let early = Timestamp { seconds: 10, nanos: 5 };
    let late = Timestamp { seconds: 10, nanos: 6 };
    let later = Timestamp { seconds: 11, nanos: 0 };
    assert!(early.le(&late));
    assert!(!late.le(&early));
    assert!(late.le(&later));
    assert!(early.le(&early));
}

#[test]
fn status_mapping_follows_error_kind() {
    let s = status_of(LikesError::InvalidInput("bad".to_string()));
    assert_eq!(s.code, RpcCode::InvalidArgument);
    assert_eq!(s.message, "bad");

    let s = status_of(LikesError::NotFound("missing".to_string()));
    assert_eq!(s.code, RpcCode::NotFound);
    assert_eq!(s.message, "missing");

    let s = status_of(LikesError::AlreadyExists("dup".to_string()));
    assert_eq!(s.code, RpcCode::AlreadyExists);
    assert_eq!(s.message, "dup");

    let s = status_of(LikesError::Internal("oops".to_string()));
    assert_eq!(s.code, RpcCode::Internal);
    assert_eq!(s.message, "oops");
}

#[test]
fn backend_detail_is_hidden_behind_internal_status() {
    let s = status_of(LikesError::Database("connection reset by backend".to_string()));
    assert_eq!(s.code, RpcCode::Internal);
    assert_eq!(s.message, "Database error occurred");

    let s = status_of(LikesError::Serialization("field order".to_string()));
    assert_eq!(s.code, RpcCode::Internal);
    assert_eq!(s.message, "Serialization error occurred");
}

#[test]
fn parse_port_accepts_digits_in_range() {
    assert_eq!(parse_port("0"), Some(0));
    assert_eq!(parse_port("50053"), Some(50053));
    assert_eq!(parse_port("65535"), Some(65535));
}

#[test]
fn parse_port_rejects_bad_input() {
    assert_eq!(parse_port(""), None);
    assert_eq!(parse_port("12a4"), None);
    assert_eq!(parse_port("-1"), None);
    assert_eq!(parse_port("65536"), None);
    assert_eq!(parse_port("99999999999999999999"), None);
}

#[test]
fn config_fills_documented_defaults() {
    let c = Config::resolve(None, None, None, None, None, None, None).unwrap();
    assert_eq!(c.host, "0.0.0.0");
    assert_eq!(c.port, 50053);
    assert_eq!(c.database_url, "rocksdb://./data/likes.db");
    assert_eq!(c.environment, "development");
    assert_eq!(c.log_level, "debug");
    assert_eq!(c.user_service_url, "http://localhost:50051");
    assert_eq!(c.post_service_url, "http://localhost:50052");
}

#[test]
fn config_takes_supplied_values() {
    let c = Config::resolve(
        Some("127.0.0.1".to_string()),
        Some("8080".to_string()),
        Some("ws://db:8000".to_string()),
        Some("production".to_string()),
        Some("info".to_string()),
        Some("http://users:50051".to_string()),
        Some("http://posts:50052".to_string()),
    )
    .unwrap();
    assert_eq!(c.host, "127.0.0.1");
    assert_eq!(c.port, 8080);
    assert_eq!(c.database_url, "ws://db:8000");
    assert_eq!(c.environment, "production");
    assert_eq!(c.log_level, "info");
}

#[test]
fn config_rejects_malformed_port() {
    let r = Config::resolve(None, Some("not-a-port".to_string()), None, None, None, None, None);
    assert!(matches!(r, Err(LikesError::InvalidInput(_))));
    let r = Config::resolve(None, Some("70000".to_string()), None, None, None, None, None);
    assert!(matches!(r, Err(LikesError::InvalidInput(_))));
}

#[test]
fn post_metadata_keeps_short_content() {
    let m = PostMetadata::from_post(3, "title".to_string(), "author".to_string(), "short".to_string());
    assert_eq!(m.id, 3);
    assert_eq!(m.title, "title");
    assert_eq!(m.author_id, "author");
    assert_eq!(m.content_preview, "short");
}

#[test]
fn post_metadata_truncates_long_content() {
    let long: String = "x".repeat(150);
    let m = PostMetadata::from_post(3, "t".to_string(), "a".to_string(), long);
    let expected = format!("{}...", "x".repeat(100));
    assert_eq!(m.content_preview, expected);
}

#[test]
fn engine_selection_follows_the_connection_scheme() {
    assert!(matches!(select_engine("ws://db:8000"), EngineSelection::Networked));
    assert!(matches!(select_engine("wss://db:8000"), EngineSelection::Networked));
    match select_engine("rocksdb://./data/likes.db") {
        EngineSelection::Embedded(path) => assert_eq!(path, "./data/likes.db"),
        other => panic!("expected the embedded engine, got {:?}", other),
    }
    assert!(matches!(select_engine("memory"), EngineSelection::Memory));
    assert!(matches!(select_engine(""), EngineSelection::Memory));
    assert!(matches!(select_engine("ws:/missing-slash"), EngineSelection::Memory));
}
