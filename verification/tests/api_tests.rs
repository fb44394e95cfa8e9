use credit_ledger::api::{apply_status_poll, estimate_cost, get_balance, validate_apple_iap};
use credit_ledger::credits::{add_credits, deduct_credits_with_lock, release_lock};
use credit_ledger::errors::AppError;
use credit_ledger::models::{Video, VideoStatus};
use credit_ledger::queries::{check_rate_limit, get_rate_limit_status};
use credit_ledger::store::Store;

fn user_with_welcome(store: &mut Store) -> String {
    store
        .get_or_create_user("apple-api", None, 1)
        .unwrap()
        .0
        .id
}

fn insert_job(store: &mut Store, uid: &str, openai_id: &str, created_at: u64) -> String {
    let v = Video::new(
        uid.to_string(),
        openai_id.to_string(),
        "sora-2".to_string(),
        "p".to_string(),
        "720x1280".to_string(),
        4,
        100,
        created_at,
    );
    let id = v.id.clone();
    store.insert_video(v).unwrap();
    id
}

#[test]
fn estimate_reports_cost_and_sufficiency() {
    let mut store = Store::new();
    let uid = user_with_welcome(&mut store);
    let est = estimate_cost(&store, &uid, "sora-2", "720x1280", 4).unwrap();
    assert_eq!(est.credits_cost, 100);
    assert_eq!(est.usd_equivalent, "$1.00");
    assert_eq!(est.current_balance, 100);
    assert!(est.sufficient_credits);

    let est2 = estimate_cost(&store, &uid, "sora-2-pro", "1280x720", 12).unwrap();
    assert_eq!(est2.credits_cost, 560);
    assert!(!est2.sufficient_credits);

    assert!(matches!(
        estimate_cost(&store, &uid, "sora-9", "720x1280", 4),
        Err(AppError::BadRequest(m)) if m == "Invalid model: sora-9"
    ));
    assert!(matches!(
        estimate_cost(&store, "ghost", "sora-2", "720x1280", 4),
        Err(AppError::NotFound(_))
    ));
}

#[test]
fn balance_endpoint_values() {
    let mut store = Store::new();
    let uid = user_with_welcome(&mut store);
    let b = get_balance(&store, &uid).unwrap();
    assert_eq!(b.credits_balance, 100);
    assert_eq!(b.usd_equivalent, "$1.00");
    assert!(matches!(get_balance(&store, "ghost"), Err(AppError::NotFound(_))));
}

#[test]
fn purchase_validation_is_idempotent_per_receipt() {
    let mut store = Store::new();
    let uid = user_with_welcome(&mut store);

    let resp = validate_apple_iap(
        &mut store,
        &uid,
        "txn-1",
        "sora_starter_pack",
        "com.example.app",
        "com.example.app",
        10,
    )
    .unwrap();
    assert!(resp.success);
    assert_eq!(resp.credits_added, 1000);
    assert_eq!(resp.new_balance, 1100);
    assert_eq!(store.read_balance(&uid).unwrap(), 1100);

    // The same store transaction again: rejected, nothing credited.
    let again = validate_apple_iap(
        &mut store,
        &uid,
        "txn-1",
        "sora_starter_pack",
        "com.example.app",
        "com.example.app",
        20,
    );
    assert!(matches!(
        again,
        Err(AppError::BadRequest(m)) if m == "Transaction already processed"
    ));
    assert_eq!(store.read_balance(&uid).unwrap(), 1100);

    assert!(matches!(
        validate_apple_iap(&mut store, &uid, "txn-2", "sora_starter_pack", "com.other", "com.example.app", 30),
        Err(AppError::BadRequest(m)) if m == "Invalid bundle ID"
    ));
    assert!(matches!(
        validate_apple_iap(&mut store, &uid, "txn-2", "mega_pack", "com.example.app", "com.example.app", 30),
        Err(AppError::BadRequest(m)) if m == "Invalid product ID"
    ));
}

#[test]
fn status_poll_application() {
    let mut store = Store::new();
    let uid = user_with_welcome(&mut store);
    insert_job(&mut store, &uid, "openai-7", 5);

    apply_status_poll(
        &mut store,
        "openai-7",
        &uid,
        "in_progress",
        Some(40),
        None,
        "https://svc",
        10,
    )
    .unwrap();
    assert!(matches!(store.videos[0].status, VideoStatus::InProgress));
    assert_eq!(store.videos[0].progress, 40);

    apply_status_poll(&mut store, "openai-7", &uid, "queued", None, None, "https://svc", 11)
        .unwrap();
    assert_eq!(store.videos[0].progress, 40);

    apply_status_poll(&mut store, "openai-7", &uid, "completed", None, None, "https://svc", 12)
        .unwrap();
    assert!(matches!(store.videos[0].status, VideoStatus::Completed));
    assert_eq!(
        store.videos[0].thumbnail_url.as_deref(),
        Some(
            format!("https://svc/v1/videos/openai-7/proxy?variant=thumbnail&user_id={uid}")
                .as_str()
        )
    );

    let err = "safety rejection".to_string();
    apply_status_poll(
        &mut store,
        "openai-7",
        &uid,
        "failed",
        None,
        Some(&err),
        "https://svc",
        13,
    )
    .unwrap();
    assert!(matches!(store.videos[0].status, VideoStatus::Failed));
    assert_eq!(store.videos[0].error_message.as_deref(), Some("safety rejection"));
}

#[test]
fn listings_are_newest_first_and_paged() {
    let mut store = Store::new();
    let uid = user_with_welcome(&mut store);
    let other = store
        .get_or_create_user("apple-other", None, 2)
        .unwrap()
        .0
        .id;
    let a = insert_job(&mut store, &uid, "openai-a", 10);
    let b = insert_job(&mut store, &uid, "openai-b", 20);
    let c = insert_job(&mut store, &uid, "openai-c", 30);
    insert_job(&mut store, &other, "openai-x", 25);

    let (page, total) = store.list_user_videos(&uid, 2, 0);
    assert_eq!(total, 3);
    assert_eq!(page.len(), 2);
    assert_eq!(page[0].id, c);
    assert_eq!(page[1].id, b);

    let (page2, _) = store.list_user_videos(&uid, 2, 2);
    assert_eq!(page2.len(), 1);
    assert_eq!(page2[0].id, a);

    let (page3, total3) = store.list_user_videos("ghost", 10, 0);
    assert!(page3.is_empty());
    assert_eq!(total3, 0);
}

#[test]
fn transaction_history_is_newest_first() {
    let mut store = Store::new();
    let uid = user_with_welcome(&mut store);
    add_credits(&mut store, &uid, 1000, "Purchased Starter Pack", None, 10).unwrap();
    deduct_credits_with_lock(&mut store, &uid, "vid-1", 100, 20).unwrap();
    release_lock(&mut store, &uid).unwrap();

    let txns = store.get_user_transactions(&uid, 2);
    assert_eq!(txns.len(), 2);
    assert_eq!(txns[0].amount, -100);
    assert_eq!(txns[1].amount, 1000);

    let all = store.get_user_transactions(&uid, 50);
    assert_eq!(all.len(), 3);
    assert_eq!(all[2].amount, 100);
}

#[test]
fn daily_rate_limit() {
    let mut store = Store::new();
    let uid = user_with_welcome(&mut store);
    let day_ms = 86_400_000u64;
    insert_job(&mut store, &uid, "openai-a", 3 * day_ms + 100);
    insert_job(&mut store, &uid, "openai-b", 3 * day_ms + 200);
    // One job from the day before does not count.
    insert_job(&mut store, &uid, "openai-c", 2 * day_ms + 100);

    let now = 3 * day_ms + 50_000;
    assert_eq!(get_rate_limit_status(&store, &uid, now, 20), (2, 20));
    assert!(check_rate_limit(&store, &uid, now, 3).is_ok());
    let r = check_rate_limit(&store, &uid, now, 2);
    assert!(matches!(
        r,
        Err(AppError::RateLimitExceeded(m))
            if m == "Daily limit of 2 videos reached. Limit resets at midnight UTC."
    ));
}
