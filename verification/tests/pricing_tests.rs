use credit_ledger::errors::AppError;
use credit_ledger::pricing::{
    calculate_credits, credits_to_usd, validate_video_params, STARTER_PACK_CREDITS,
    WELCOME_CREDITS,
};
use credit_ledger::strutil::{i64_to_string, str_eq, u64_to_string};

#[test]
fn price_table_exact_values() {
    assert_eq!(calculate_credits("sora-2", 4).unwrap(), 100);
    assert_eq!(calculate_credits("sora-2", 8).unwrap(), 150);
    assert_eq!(calculate_credits("sora-2", 12).unwrap(), 200);
    assert_eq!(calculate_credits("sora-2-pro", 4).unwrap(), 280);
    assert_eq!(calculate_credits("sora-2-pro", 8).unwrap(), 450);
    assert_eq!(calculate_credits("sora-2-pro", 12).unwrap(), 560);
}

#[test]
fn price_table_rejects_unknown_pairs() {
    let r = calculate_credits("sora-2", 6);
    assert!(matches!(
        r,
        Err(AppError::BadRequest(m))
            if m == "Invalid model/duration combination: sora-2 6s. Supported: 4s, 8s, 12s"
    ));
    assert!(calculate_credits("dall-e", 4).is_err());
}

#[test]
fn parameter_validation_messages() {
    assert!(validate_video_params("sora-2", "720x1280", 4).is_ok());
    assert!(validate_video_params("sora-2-pro", "1280x720", 12).is_ok());
    assert!(matches!(
        validate_video_params("gpt", "720x1280", 4),
        Err(AppError::BadRequest(m)) if m == "Invalid model: gpt"
    ));
    assert!(matches!(
        validate_video_params("sora-2", "640x480", 4),
        Err(AppError::BadRequest(m)) if m == "Invalid size: 640x480. Must be 720x1280 or 1280x720"
    ));
    assert!(matches!(
        validate_video_params("sora-2", "720x1280", 7),
        Err(AppError::BadRequest(m)) if m == "Invalid duration: 7s. Must be 4, 8, or 12 seconds"
    ));
}

#[test]
fn usd_rendering() {
    assert_eq!(credits_to_usd(0), "$0.00");
    assert_eq!(credits_to_usd(5), "$0.05");
    assert_eq!(credits_to_usd(100), "$1.00");
    assert_eq!(credits_to_usd(1050), "$10.50");
    assert_eq!(credits_to_usd(999), "$9.99");
    assert_eq!(credits_to_usd(-5), "$-0.05");
    assert_eq!(credits_to_usd(STARTER_PACK_CREDITS), "$10.00");
    assert_eq!(credits_to_usd(WELCOME_CREDITS), "$1.00");
}

#[test]
fn decimal_rendering() {
    assert_eq!(u64_to_string(0), "0");
    assert_eq!(u64_to_string(7), "7");
    assert_eq!(u64_to_string(90210), "90210");
    assert_eq!(u64_to_string(u64::MAX), "18446744073709551615");
    assert_eq!(i64_to_string(-42), "-42");
    assert_eq!(i64_to_string(i64::MIN), "-9223372036854775808");
    assert_eq!(i64_to_string(20), "20");
}

#[test]
fn string_equality_is_exact() {
    assert!(str_eq("sora-2", "sora-2"));
    assert!(!str_eq("sora-2", "sora-2-pro"));
    assert!(!str_eq("sora-2", "sora-1"));
    assert!(str_eq("", ""));
    assert!(!str_eq("a", ""));
}

#[test]
fn error_codes_statuses_and_messages() {
    let cases: Vec<(AppError, u16, &str)> = vec![
        (AppError::Unauthorized("h".into()), 401, "unauthorized"),
        (AppError::BadRequest("b".into()), 400, "bad_request"),
        (AppError::NotFound("n".into()), 404, "not_found"),
        (AppError::InsufficientCredits, 402, "insufficient_credits"),
        (AppError::ConcurrentGeneration, 409, "concurrent_generation"),
        (AppError::RateLimitExceeded("r".into()), 429, "rate_limit_exceeded"),
        (AppError::ExternalApiError("x".into()), 502, "external_api_error"),
        (AppError::DatabaseError("d".into()), 500, "database_error"),
        (AppError::InternalError("i".into()), 500, "internal_error"),
    ];
    for (e, status, code) in cases {
        assert_eq!(e.status_code(), status);
        assert_eq!(e.error_code(), code);
    }
    assert_eq!(
        AppError::Unauthorized("bad header".into()).message(),
        "Unauthorized: bad header"
    );
    assert_eq!(
        AppError::InsufficientCredits.client_message(),
        "You don't have enough credits. Purchase more to continue."
    );
    assert_eq!(
        AppError::ConcurrentGeneration.message(),
        "Another video is currently being generated"
    );
}
