use axum_redis_cache::cache_key::KEY_DELIMITER;
use axum_redis_cache::{derive_cache_key, rate_limit_key, CacheKeyError, ExtractRedisKey};

#[test]
fn test_with_path() {
    let key = ExtractRedisKey::from_path_and_query("/api/v1/test", None).unwrap();
    assert_eq!(key.0, "api:v1:test");
}

#[test]
fn test_with_path_and_query() {
    let key = ExtractRedisKey::from_path_and_query("/api/v1/test", Some("name=John&age=30")).unwrap();
    assert_eq!(key.0, "api:v1:test:age=30:name=John");
}

#[test]
fn test_empty_params_returns_bad_request() {
    let err = ExtractRedisKey::from_path_and_query("/", None).unwrap_err();
    assert_eq!(err, CacheKeyError::NoIdentifyingData);
    assert_eq!(err.status_code(), 400);
}

#[test]
fn test_nested_routes() {
    let key = ExtractRedisKey::from_path_and_query("/api/v1/test", Some("name=John&age=30")).unwrap();
    assert_eq!(key.0, "api:v1:test:age=30:name=John");
}

#[test]
fn key_ignores_parameter_order() {
    let a = derive_cache_key("/repositories", Some("page=3&per_page=20&q=rust")).unwrap();
    let b = derive_cache_key("/repositories", Some("q=rust&page=3&per_page=20")).unwrap();
    assert_eq!(a, b);
    assert_eq!(a, "repositories:page=3:per_page=20:q=rust");
}

#[test]
fn key_tells_parameter_values_apart() {
    let a = derive_cache_key("/repositories", Some("page=3")).unwrap();
    let b = derive_cache_key("/repositories", Some("page=4")).unwrap();
    assert_ne!(a, b);
    assert_eq!(a, "repositories:page=3");
}

#[test]
fn key_sorts_by_whole_pair_not_by_name() {
    let key = derive_cache_key("/x", Some("a=2&a=10&a-b=1")).unwrap();
    assert_eq!(key, "x:a-b=1:a=10:a=2");
}

#[test]
fn key_of_empty_request_is_rejected() {
    assert_eq!(derive_cache_key("", None), Err(CacheKeyError::NoIdentifyingData));
    assert_eq!(derive_cache_key("/", Some("")), Err(CacheKeyError::NoIdentifyingData));
}

#[test]
fn key_of_query_alone() {
    assert_eq!(derive_cache_key("/", Some("page=1")).unwrap(), "page=1");
    assert_eq!(derive_cache_key("", Some("page=3")).unwrap(), "page=3");
}

#[test]
fn key_skips_empty_segments_and_parameters() {
    assert_eq!(derive_cache_key("/a/", None).unwrap(), "a");
    assert_eq!(derive_cache_key("/a/", Some("b=1")).unwrap(), "a:b=1");
    assert_eq!(derive_cache_key("/a", Some("b=1&")).unwrap(), "a:b=1");
    assert_eq!(derive_cache_key("//a//b", Some("&&c=2&&b=1")).unwrap(), "a:b:b=1:c=2");
    assert_eq!(derive_cache_key("//", None), Err(CacheKeyError::NoIdentifyingData));
    assert_eq!(derive_cache_key("/", Some("&&")), Err(CacheKeyError::NoIdentifyingData));
}

#[test]
fn key_of_non_ascii_path() {
    assert_eq!(derive_cache_key("/caf\u{e9}/men\u{fc}", Some("q=\u{e9}t\u{e9}")).unwrap(), "caf\u{e9}:men\u{fc}:q=\u{e9}t\u{e9}");
}

#[test]
fn key_delimiter_is_colon() {
    assert_eq!(KEY_DELIMITER, ':');
}

#[test]
fn rate_limit_key_ignores_query() {
    assert_eq!(rate_limit_key("/api/v1/github/repositories"), "errors:rate_limit:api:v1:github:repositories");
    assert_eq!(
        rate_limit_key("/api/v1/github/repositories/cube/good-first-issues"),
        "errors:rate_limit:api:v1:github:repositories:cube:good-first-issues"
    );
}

#[test]
fn rate_limit_key_trims_delimiters() {
    assert_eq!(rate_limit_key("/a/b/"), "errors:rate_limit:a:b");
    assert_eq!(rate_limit_key("//a//b"), "errors:rate_limit:a:b");
    assert_eq!(rate_limit_key("/"), "errors:rate_limit:");
}
