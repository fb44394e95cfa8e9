use credit_ledger::coordinator::{commit_submission, compensate_submission};
use credit_ledger::credits::{deduct_credits_with_lock, release_lock};
use credit_ledger::errors::AppError;
use credit_ledger::models::{TransactionKind, Video, VideoStatus};
use credit_ledger::store::Store;

fn funded_user(store: &mut Store, apple_id: &str, balance: i64) -> String {
    let (user, _) = store.get_or_create_user(apple_id, None, 1).unwrap();
    let uid = user.id;
    // The welcome bonus leaves 100; shape the balance through the ledger.
    if balance > 100 {
        credit_ledger::credits::add_credits(store, &uid, balance - 100, "Purchased Starter Pack", None, 2)
            .unwrap();
    } else if balance < 100 {
        deduct_credits_with_lock(store, &uid, "shaping", 100 - balance, 3).unwrap();
        release_lock(store, &uid).unwrap();
    }
    assert_eq!(store.read_balance(&uid).unwrap(), balance);
    uid
}

#[test]
fn scenario_provider_failure_is_fully_compensated() {
    // Balance 100; debit 100 leaves 0; the provider rejects the submission;
    // the refund restores 100 and the lock is released, so a later
    // submission can acquire it again.
    let mut store = Store::new();
    let uid = funded_user(&mut store, "apple-a", 100);

    let nb = deduct_credits_with_lock(&mut store, &uid, "vid-a", 100, 10).unwrap();
    assert_eq!(nb, 0);

    // Provider failed: compensate.
    let restored = compensate_submission(&mut store, &uid, "vid-a", 100, 20).unwrap();
    assert_eq!(restored, 100);
    assert_eq!(store.read_balance(&uid).unwrap(), 100);
    assert_eq!(store.locks.len(), 0);

    // The account can submit again.
    assert!(deduct_credits_with_lock(&mut store, &uid, "vid-b", 100, 30).is_ok());
}

#[test]
fn scenario_insufficient_credits_leaves_no_trace() {
    // Balance 50; a debit of 100 fails with InsufficientCredits; the balance
    // stays 50 and no lock persists.
    let mut store = Store::new();
    let uid = funded_user(&mut store, "apple-b", 50);
    let txns_before = store.transactions.len();

    let r = deduct_credits_with_lock(&mut store, &uid, "vid-a", 100, 10);
    assert!(matches!(r, Err(AppError::InsufficientCredits)));
    assert_eq!(store.read_balance(&uid).unwrap(), 50);
    assert_eq!(store.locks.len(), 0);
    assert_eq!(store.transactions.len(), txns_before);
}

#[test]
fn commit_persists_job_and_releases_lock() {
    let mut store = Store::new();
    let uid = funded_user(&mut store, "apple-c", 200);

    let nb = deduct_credits_with_lock(&mut store, &uid, "vid-c", 150, 10).unwrap();
    assert_eq!(nb, 50);

    let video = Video::new(
        uid.clone(),
        "openai-123".to_string(),
        "sora-2".to_string(),
        "a red fox".to_string(),
        "720x1280".to_string(),
        8,
        150,
        11,
    );
    let resp = commit_submission(&mut store, &uid, video, 150, nb).unwrap();
    assert!(matches!(resp.status, VideoStatus::Queued));
    assert_eq!(resp.credits_cost, 150);
    assert_eq!(resp.new_balance, 50);
    assert_eq!(resp.estimated_wait_seconds, 120);
    assert_eq!(store.videos.len(), 1);
    assert_eq!(store.videos[0].id, resp.id);
    assert_eq!(store.locks.len(), 0);
    // Committing changes no balances: only the debit did.
    assert_eq!(store.read_balance(&uid).unwrap(), 50);
}

#[test]
fn compensation_after_duplicate_submit_failure_stays_single() {
    // A failure notification for the same job after synchronous compensation
    // must not refund twice.
    let mut store = Store::new();
    let uid = funded_user(&mut store, "apple-d", 100);

    deduct_credits_with_lock(&mut store, &uid, "vid-d", 100, 10).unwrap();
    compensate_submission(&mut store, &uid, "vid-d", 100, 20).unwrap();
    // A retried compensation for the same job.
    let again = compensate_submission(&mut store, &uid, "vid-d", 100, 30).unwrap();
    assert_eq!(again, 100);
    assert_eq!(store.read_balance(&uid).unwrap(), 100);
    let refunds = store
        .transactions
        .iter()
        .filter(|t| matches!(t.transaction_type, TransactionKind::Refund))
        .count();
    assert_eq!(refunds, 1);
}

#[test]
fn duplicate_job_record_is_refused() {
    let mut store = Store::new();
    let uid = funded_user(&mut store, "apple-e", 200);
    let v1 = Video::new(
        uid.clone(),
        "openai-xyz".to_string(),
        "sora-2".to_string(),
        "p".to_string(),
        "720x1280".to_string(),
        4,
        100,
        5,
    );
    store.insert_video(v1).unwrap();
    let v2 = Video::new(
        uid.clone(),
        "openai-xyz".to_string(),
        "sora-2".to_string(),
        "p".to_string(),
        "720x1280".to_string(),
        4,
        100,
        6,
    );
    let r = store.insert_video(v2);
    assert!(matches!(r, Err(AppError::DatabaseError(m)) if m == "duplicate video id"));
    assert_eq!(store.videos.len(), 1);
}
