use credit_ledger::auth::{
    decode_jwt_part, extract_user_from_request, validate_apple_claims, verify_webhook_auth,
};
use credit_ledger::errors::AppError;
use credit_ledger::proxy::{contains_str, parse_range, parse_usize, select_variant};
use credit_ledger::time::rfc3339_from_millis;
use credit_ledger::urls::{build_download_url, build_proxy_url, build_video_form};

#[test]
fn range_header_windows() {
    assert_eq!(parse_range("bytes=0-499", 1000), Some((0, 499)));
    assert_eq!(parse_range("bytes=500-", 1000), Some((500, 999)));
    assert_eq!(parse_range("bytes=0-", 1000), Some((0, 999)));
    // A missing or unparsable start reads as zero.
    assert_eq!(parse_range("bytes=-", 1000), Some((0, 999)));
    assert_eq!(parse_range("bytes=abc-5", 1000), Some((0, 5)));
    // An oversized end is clipped to the last byte.
    assert_eq!(parse_range("bytes=10-123456", 100), Some((10, 99)));
    // Not a byte range, or an empty window: refused.
    assert_eq!(parse_range("items=0-4", 1000), None);
    assert_eq!(parse_range("bytes=5", 1000), None);
    assert_eq!(parse_range("bytes=5-2", 1000), None);
    assert_eq!(parse_range("bytes=2000-", 1000), None);
}

#[test]
fn decimal_parsing() {
    assert_eq!(parse_usize("0"), Some(0));
    assert_eq!(parse_usize("499"), Some(499));
    assert_eq!(parse_usize(""), None);
    assert_eq!(parse_usize("4a9"), None);
    assert_eq!(parse_usize("-3"), None);
    assert_eq!(parse_usize("18446744073709551615"), Some(usize::MAX));
    assert_eq!(parse_usize("18446744073709551616"), None);
}

#[test]
fn variant_selection() {
    assert_eq!(
        select_variant("https://s/v1/videos/x/proxy?variant=thumbnail&user_id=u"),
        "thumbnail"
    );
    assert_eq!(
        select_variant("https://s/v1/videos/x/proxy?variant=spritesheet"),
        "spritesheet"
    );
    assert_eq!(select_variant("https://s/v1/videos/x/proxy?variant=video"), "video");
    assert_eq!(select_variant("https://s/v1/videos/x/proxy"), "video");
}

#[test]
fn substring_search() {
    assert!(contains_str("variant=thumbnail", "thumbnail"));
    assert!(contains_str("abc", ""));
    assert!(!contains_str("", "a"));
    assert!(!contains_str("abab", "abb"));
    assert!(contains_str("aaab", "aab"));
}

#[test]
fn url_building() {
    assert_eq!(
        build_download_url("video_123", "thumbnail"),
        "https://api.openai.com/v1/videos/video_123/content?variant=thumbnail"
    );
    assert_eq!(
        build_proxy_url("https://svc.example.com", "video_123", "video", "user_9"),
        "https://svc.example.com/v1/videos/video_123/proxy?variant=video&user_id=user_9"
    );
    let form = build_video_form("sora-2", "a red fox", "720x1280", 8);
    assert!(form.starts_with(
        "--boundary\r\nContent-Disposition: form-data; name=\"model\"\r\n\r\nsora-2\r\n"
    ));
    assert!(form.contains("name=\"seconds\"\r\n\r\n8\r\n"));
    assert!(form.ends_with("--boundary--\r\n"));
}

#[test]
fn rfc3339_rendering() {
    assert_eq!(rfc3339_from_millis(0), "1970-01-01T00:00:00+00:00");
    assert_eq!(rfc3339_from_millis(1_500), "1970-01-01T00:00:01.500+00:00");
    assert_eq!(rfc3339_from_millis(1_700_000_000_000), "2023-11-14T22:13:20+00:00");
}

#[test]
fn bearer_extraction() {
    assert!(matches!(
        extract_user_from_request(None),
        Err(AppError::Unauthorized(m)) if m == "Missing Authorization header"
    ));
    let h = "Token abc".to_string();
    assert!(matches!(
        extract_user_from_request(Some(&h)),
        Err(AppError::Unauthorized(m)) if m == "Invalid Authorization format"
    ));
    let h = "Bearer ".to_string();
    assert!(matches!(
        extract_user_from_request(Some(&h)),
        Err(AppError::Unauthorized(m)) if m == "Empty user ID"
    ));
    let h = "Bearer user-42".to_string();
    assert_eq!(extract_user_from_request(Some(&h)).unwrap(), "user-42");
    // Repeated markers are all stripped, as trimming repeated prefixes does.
    let h = "Bearer Bearer user-42".to_string();
    assert_eq!(extract_user_from_request(Some(&h)).unwrap(), "user-42");
}

#[test]
fn webhook_authentication() {
    assert!(matches!(
        verify_webhook_auth(None, "s3cret"),
        Err(AppError::Unauthorized(m)) if m == "Missing webhook authentication"
    ));
    let h = "Basic abc".to_string();
    assert!(matches!(
        verify_webhook_auth(Some(&h), "s3cret"),
        Err(AppError::Unauthorized(m)) if m == "Invalid webhook auth format"
    ));
    let h = "Bearer wrong".to_string();
    assert!(matches!(
        verify_webhook_auth(Some(&h), "s3cret"),
        Err(AppError::Unauthorized(m)) if m == "Invalid webhook secret"
    ));
    let h = "Bearer s3cret".to_string();
    assert!(verify_webhook_auth(Some(&h), "s3cret").is_ok());
}

#[test]
fn identity_token_claims() {
    let auds = vec!["com.example.app".to_string(), "other".to_string()];
    assert!(validate_apple_claims(
        2_000, 1_000, "https://appleid.apple.com", &auds, "com.example.app", 1_500
    )
    .is_ok());
    assert!(matches!(
        validate_apple_claims(1_000, 900, "https://appleid.apple.com", &auds, "com.example.app", 1_500),
        Err(AppError::Unauthorized(m)) if m == "Token expired"
    ));
    assert!(matches!(
        validate_apple_claims(2_000, 1_561, "https://appleid.apple.com", &auds, "com.example.app", 1_500),
        Err(AppError::Unauthorized(m)) if m == "Token issued in the future"
    ));
    // One minute of clock skew is tolerated.
    assert!(validate_apple_claims(
        2_000, 1_560, "https://appleid.apple.com", &auds, "com.example.app", 1_500
    )
    .is_ok());
    assert!(matches!(
        validate_apple_claims(2_000, 1_000, "https://evil.example.com", &auds, "com.example.app", 1_500),
        Err(AppError::Unauthorized(m)) if m == "Invalid token issuer"
    ));
    assert!(matches!(
        validate_apple_claims(2_000, 1_000, "https://appleid.apple.com", &auds, "com.missing", 1_500),
        Err(AppError::Unauthorized(m)) if m == "Invalid token audience"
    ));
}

#[test]
fn token_segment_decoding() {
    assert_eq!(decode_jwt_part("aGVsbG8").unwrap(), b"hello");
    assert_eq!(decode_jwt_part("").unwrap(), b"");
    // '+' belongs to the standard alphabet, not the URL-safe one.
    assert!(matches!(
        decode_jwt_part("a+b/"),
        Err(AppError::Unauthorized(m)) if m == "Invalid token encoding"
    ));
}
