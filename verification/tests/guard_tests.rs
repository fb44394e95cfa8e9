use credit_ledger::credits::{deduct_credits_with_lock, release_lock};
use credit_ledger::errors::AppError;
use credit_ledger::guard::{process_notification, NotificationOutcome};
use credit_ledger::models::{NotificationKind, TransactionKind, Video, VideoStatus};
use credit_ledger::store::Store;

const BASE: &str = "https://service.example.com";

/// A user who paid for one job whose record is persisted.
fn submitted_job(store: &mut Store) -> (String, String) {
    let (user, _) = store.get_or_create_user("apple-guard", None, 1).unwrap();
    let uid = user.id;
    let nb = deduct_credits_with_lock(store, &uid, "vid-1", 100, 2).unwrap();
    assert_eq!(nb, 0);
    let video = Video::new(
        uid.clone(),
        "openai-1".to_string(),
        "sora-2".to_string(),
        "p".to_string(),
        "720x1280".to_string(),
        4,
        100,
        3,
    );
    let video_id = video.id.clone();
    store.insert_video(video).unwrap();
    release_lock(store, &uid).unwrap();
    (uid, video_id)
}

#[test]
fn failed_notification_refunds_once() {
    let mut store = Store::new();
    let (uid, _video_id) = submitted_job(&mut store);
    assert_eq!(store.read_balance(&uid).unwrap(), 0);

    let r1 = process_notification(&mut store, "openai-1", NotificationKind::Failed, BASE, 10)
        .unwrap();
    assert!(matches!(r1, NotificationOutcome::Applied));
    assert_eq!(store.read_balance(&uid).unwrap(), 100);
    assert!(matches!(store.videos[0].status, VideoStatus::Failed));
    assert_eq!(
        store.videos[0].error_message.as_deref(),
        Some("Video generation failed on OpenAI side")
    );
    assert_eq!(store.videos[0].failed_at, Some(10));

    // Redelivery: answered as a duplicate, no second refund.
    let txns = store.transactions.len();
    let r2 = process_notification(&mut store, "openai-1", NotificationKind::Failed, BASE, 20)
        .unwrap();
    assert!(matches!(r2, NotificationOutcome::Duplicate));
    assert_eq!(store.read_balance(&uid).unwrap(), 100);
    assert_eq!(store.transactions.len(), txns);
    let refunds = store
        .transactions
        .iter()
        .filter(|t| matches!(t.transaction_type, TransactionKind::Refund))
        .count();
    assert_eq!(refunds, 1);
}

#[test]
fn completed_notification_applied_once() {
    let mut store = Store::new();
    let (uid, _video_id) = submitted_job(&mut store);
    let txns = store.transactions.len();

    let r1 = process_notification(&mut store, "openai-1", NotificationKind::Completed, BASE, 10)
        .unwrap();
    assert!(matches!(r1, NotificationOutcome::Applied));
    assert!(matches!(store.videos[0].status, VideoStatus::Completed));
    assert_eq!(store.videos[0].progress, 100);
    assert_eq!(store.videos[0].completed_at, Some(10));
    assert_eq!(
        store.videos[0].video_url.as_deref(),
        Some(
            format!(
                "{BASE}/v1/videos/openai-1/proxy?variant=video&user_id={uid}"
            )
            .as_str()
        )
    );
    assert_eq!(store.videos[0].download_url_expires_at, Some(10 + 86_400_000));
    let events_after_first = store.webhook_events.len();
    assert_eq!(events_after_first, 1);
    assert!(store.webhook_events[0].processed);

    // Delivered twice: exactly one state update, no ledger entries at all.
    let r2 = process_notification(&mut store, "openai-1", NotificationKind::Completed, BASE, 20)
        .unwrap();
    assert!(matches!(r2, NotificationOutcome::Duplicate));
    assert_eq!(store.videos[0].completed_at, Some(10));
    assert_eq!(store.webhook_events.len(), 1);
    assert_eq!(store.transactions.len(), txns);
    assert_eq!(store.read_balance(&uid).unwrap(), 0);
}

#[test]
fn completion_and_failure_are_separate_events() {
    // The deduplication key is (job id, event kind): a failure arriving
    // after a completion is still recorded and applied.
    let mut store = Store::new();
    let (uid, _video_id) = submitted_job(&mut store);

    process_notification(&mut store, "openai-1", NotificationKind::Completed, BASE, 10)
        .unwrap();
    let r = process_notification(&mut store, "openai-1", NotificationKind::Failed, BASE, 20)
        .unwrap();
    assert!(matches!(r, NotificationOutcome::Applied));
    assert_eq!(store.webhook_events.len(), 2);
    assert_eq!(store.read_balance(&uid).unwrap(), 100);
}

#[test]
fn notification_for_unknown_job_is_an_error_and_stays_unprocessed() {
    let mut store = Store::new();
    let r = process_notification(&mut store, "openai-ghost", NotificationKind::Completed, BASE, 10);
    assert!(matches!(r, Err(AppError::NotFound(m)) if m == "Video not found"));
    // The sighting was recorded but not marked processed, so a redelivery
    // after the job appears will still be applied.
    assert_eq!(store.webhook_events.len(), 1);
    assert!(!store.webhook_events[0].processed);
}

#[test]
fn guard_primitives_follow_the_record() {
    let mut store = Store::new();
    assert!(!store.is_duplicate_webhook("openai-1", NotificationKind::Failed));
    store
        .store_webhook_event("openai-1", NotificationKind::Failed, 5)
        .unwrap();
    // Recorded but unprocessed: not yet a duplicate.
    assert!(!store.is_duplicate_webhook("openai-1", NotificationKind::Failed));
    store
        .mark_webhook_processed("openai-1", NotificationKind::Failed)
        .unwrap();
    assert!(store.is_duplicate_webhook("openai-1", NotificationKind::Failed));
    // Storing again after processing does not add a second record.
    store
        .store_webhook_event("openai-1", NotificationKind::Failed, 6)
        .unwrap();
    assert_eq!(store.webhook_events.len(), 1);
}
