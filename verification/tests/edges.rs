use pragma::assets::{
    asset_headers, asset_path, cache_policy, with_caching_headers, CachePolicy,
};
use pragma::auth::{extract_bearer_token, middleware, random_token};
use pragma::build_info::{build_version, build_version_short};
use pragma::repo_id::generate;
use pragma::store::StoreError;

#[test]
fn generated_ids_have_21_url_safe_symbols() {
    let a = generate();
    let b = generate();
    assert_eq!(a.chars().count(), 21);
    assert!(a.chars().all(|c| c.is_ascii_alphanumeric() || c == '_' || c == '-'));
    assert_ne!(a, b);
}

#[test]
fn random_tokens_have_32_letters_and_digits() {
    let token = random_token();
    assert_eq!(token.chars().count(), 32);
    assert!(token.chars().all(|c| c.is_ascii_alphanumeric()));
    assert_ne!(token, random_token());
}

#[test]
fn the_bearer_token_is_the_last_word_of_the_header() {
    assert_eq!(extract_bearer_token(Some("Bearer abc123")), Some("abc123".to_string()));
    assert_eq!(extract_bearer_token(Some("abc123")), Some("abc123".to_string()));
    assert_eq!(extract_bearer_token(Some("Bearer\tx y")), Some("y".to_string()));
    assert_eq!(extract_bearer_token(Some("Bearer\u{a0}nb")), Some("nb".to_string()));
    assert_eq!(extract_bearer_token(Some("a\u{3000}b\u{200b}c")), Some("b\u{200b}c".to_string()));
    assert_eq!(extract_bearer_token(Some("Bearer abc ")), Some(String::new()));
    assert_eq!(extract_bearer_token(Some("")), Some(String::new()));
    assert_eq!(extract_bearer_token(None), None);
}

#[test]
fn the_middleware_lets_the_right_token_through() {
    let auth = middleware("s3cret".to_string());
    assert!(auth.authorizes(Some("Bearer s3cret")));
    assert!(auth.authorizes(Some("s3cret")));
    assert!(!auth.authorizes(Some("Bearer other")));
    assert!(!auth.authorizes(Some("Bearer s3cret ")));
    assert!(!auth.authorizes(None));
}

#[test]
fn build_versions_are_formatted() {
    assert_eq!(build_version_short("0.3.1", "abc1234"), "0.3.1-abc1234");
    assert_eq!(build_version("0.3.1", "abc1234", "2018-10-01"), "0.3.1-abc1234 (2018-10-01)");
}

#[test]
fn an_empty_path_names_the_index_page() {
    assert_eq!(asset_path(None), "index.html");
    assert_eq!(asset_path(Some("")), "index.html");
    assert_eq!(asset_path(Some("app.js")), "app.js");
}

#[test]
fn assets_are_cached_by_their_kind() {
    assert_eq!(with_caching_headers("service-worker.js"), CachePolicy::NoStore);
    assert_eq!(with_caching_headers("static/app.js"), CachePolicy::LongLived);
    assert_eq!(with_caching_headers("logo.svg"), CachePolicy::LongLived);
    assert_eq!(with_caching_headers("photo.jpeg"), CachePolicy::LongLived);
    assert_eq!(with_caching_headers("index.html"), CachePolicy::Unset);
    assert_eq!(with_caching_headers("app.js.map"), CachePolicy::Unset);
    assert_eq!(with_caching_headers("js"), CachePolicy::Unset);
    assert_eq!(cache_policy("service-worker.js", true), CachePolicy::NoStore);
    assert_eq!(cache_policy("x", true), CachePolicy::LongLived);
    assert_eq!(cache_policy("x", false), CachePolicy::Unset);
}

#[test]
fn assets_get_their_media_type() {
    let script = asset_headers("static/app.js");
    assert!(script.content_type.contains("javascript"));
    assert_eq!(script.cache, CachePolicy::LongLived);
    let page = asset_headers("index.html");
    assert_eq!(page.content_type, "text/html");
    assert_eq!(page.cache, CachePolicy::Unset);
    assert_eq!(asset_headers("unknown.zzzz").content_type, "application/octet-stream");
    assert_eq!(asset_headers("service-worker.js").cache, CachePolicy::NoStore);
}

#[test]
fn errors_give_their_reason() {
    assert_eq!(StoreError::NotFound.reason(), "NotFound");
    assert_eq!(StoreError::ValidationError.reason(), "ValidationError");
    assert_eq!(StoreError::StorageUnavailable.reason(), "StorageUnavailable");
    assert_eq!(StoreError::AggregationFailure.reason(), "AggregationFailure");
}
