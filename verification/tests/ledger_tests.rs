use credit_ledger::credits::{add_credits, deduct_credits_with_lock, refund_credits, release_lock};
use credit_ledger::errors::{AppError, LedgerError, LockError};
use credit_ledger::models::TransactionKind;
use credit_ledger::store::Store;

fn new_user(store: &mut Store) -> String {
    let (user, created) = store
        .get_or_create_user("apple-user-1", Some("a@example.com".to_string()), 1_000)
        .unwrap();
    assert!(created);
    user.id
}

fn ledger_sum_for(store: &Store, uid: &str) -> i64 {
    store
        .transactions
        .iter()
        .filter(|t| t.user_id == uid)
        .map(|t| t.amount)
        .sum()
}

#[test]
fn welcome_bonus_on_first_sight() {
    let mut store = Store::new();
    let (user, created) = store
        .get_or_create_user("apple-user-1", None, 5)
        .unwrap();
    assert!(created);
    assert_eq!(user.credits_balance, 100);
    assert_eq!(user.id.len(), 36);
    assert_eq!(store.transactions.len(), 1);
    assert_eq!(store.transactions[0].amount, 100);
    assert_eq!(store.transactions[0].balance_after, 100);
    assert!(matches!(
        store.transactions[0].transaction_type,
        TransactionKind::Welcome
    ));
    assert_eq!(
        store.transactions[0].description,
        "Welcome bonus - Try your first video for free!"
    );

    let (again, created2) = store
        .get_or_create_user("apple-user-1", None, 6)
        .unwrap();
    assert!(!created2);
    assert_eq!(again.id, user.id);
    assert_eq!(store.users.len(), 1);
    assert_eq!(store.transactions.len(), 1);
}

#[test]
fn balance_is_sum_of_transaction_amounts() {
    let mut store = Store::new();
    let uid = new_user(&mut store);
    add_credits(&mut store, &uid, 1000, "Purchased Starter Pack", None, 10).unwrap();
    deduct_credits_with_lock(&mut store, &uid, "vid-1", 150, 20).unwrap();
    release_lock(&mut store, &uid).unwrap();
    refund_credits(&mut store, &uid, "vid-1", 150, 30).unwrap();
    deduct_credits_with_lock(&mut store, &uid, "vid-2", 560, 40).unwrap();
    release_lock(&mut store, &uid).unwrap();

    let balance = store.read_balance(&uid).unwrap();
    assert_eq!(balance, 100 + 1000 - 150 + 150 - 560);
    assert_eq!(balance, ledger_sum_for(&store, &uid));
    let user = store.get_user_by_id(&uid).unwrap();
    assert_eq!(user.credits_balance, balance);
}

#[test]
fn debit_insufficient_funds_changes_nothing() {
    let mut store = Store::new();
    let uid = new_user(&mut store);
    let txns_before = store.transactions.len();
    let r = store.debit(&uid, 101, "vid-1", "Video generation cost", false, 50);
    assert!(matches!(r, Err(LedgerError::InsufficientFunds)));
    assert_eq!(store.read_balance(&uid).unwrap(), 100);
    assert_eq!(store.transactions.len(), txns_before);
}

#[test]
fn credit_records_one_row_per_call() {
    let mut store = Store::new();
    let uid = new_user(&mut store);
    let nb = store
        .credit(
            &uid,
            250,
            TransactionKind::Purchase,
            "Purchased Starter Pack",
            None,
            None,
            60,
        )
        .unwrap();
    assert_eq!(nb, 350);
    assert_eq!(store.transactions.len(), 2);
    let last = store.transactions.last().unwrap();
    assert_eq!(last.amount, 250);
    assert_eq!(last.balance_after, 350);
    assert_eq!(last.created_at, 60);
    assert_eq!(last.id.len(), 36);
}

#[test]
fn operations_on_unknown_account_fail() {
    let mut store = Store::new();
    assert!(matches!(
        store.read_balance("nobody"),
        Err(LedgerError::AccountNotFound)
    ));
    assert!(matches!(
        store.get_user_by_id("nobody"),
        Err(AppError::NotFound(m)) if m == "User not found"
    ));
    assert!(matches!(
        add_credits(&mut store, "nobody", 10, "x", None, 1),
        Err(AppError::NotFound(_))
    ));
}

#[test]
fn acquire_is_exclusive_per_account() {
    let mut store = Store::new();
    let uid = new_user(&mut store);
    let other = store
        .get_or_create_user("apple-user-2", None, 2)
        .unwrap()
        .0
        .id;

    let mut successes = 0;
    let mut conflicts = 0;
    for attempt in 0..5 {
        match store.acquire(&uid, &format!("vid-{attempt}"), 100 + attempt) {
            Ok(()) => successes += 1,
            Err(LockError::AlreadyLocked) => conflicts += 1,
        }
    }
    assert_eq!(successes, 1);
    assert_eq!(conflicts, 4);

    // The lock serializes only this account: another account still acquires.
    assert!(store.acquire(&other, "vid-x", 200).is_ok());

    store.release(&uid);
    assert!(store.acquire(&uid, "vid-later", 300).is_ok());
}

#[test]
fn release_is_idempotent() {
    let mut store = Store::new();
    let uid = new_user(&mut store);
    store.acquire(&uid, "vid-1", 10).unwrap();
    assert_eq!(store.locks.len(), 1);
    store.release(&uid);
    assert_eq!(store.locks.len(), 0);
    store.release(&uid);
    assert_eq!(store.locks.len(), 0);
}

#[test]
fn refund_twice_credits_once() {
    let mut store = Store::new();
    let uid = new_user(&mut store);
    deduct_credits_with_lock(&mut store, &uid, "vid-1", 100, 10).unwrap();
    release_lock(&mut store, &uid).unwrap();
    assert_eq!(store.read_balance(&uid).unwrap(), 0);

    let nb1 = refund_credits(&mut store, &uid, "vid-1", 100, 20).unwrap();
    assert_eq!(nb1, 100);
    let nb2 = refund_credits(&mut store, &uid, "vid-1", 100, 30).unwrap();
    assert_eq!(nb2, 100);
    assert_eq!(store.read_balance(&uid).unwrap(), 100);

    let refunds: Vec<_> = store
        .transactions
        .iter()
        .filter(|t| {
            matches!(t.transaction_type, TransactionKind::Refund)
                && t.video_id.as_deref() == Some("vid-1")
        })
        .collect();
    assert_eq!(refunds.len(), 1);
    assert_eq!(refunds[0].amount, 100);
}

#[test]
fn deduct_with_lock_charges_and_holds_lock() {
    let mut store = Store::new();
    let uid = new_user(&mut store);
    let nb = deduct_credits_with_lock(&mut store, &uid, "vid-1", 100, 10).unwrap();
    assert_eq!(nb, 0);
    assert_eq!(store.locks.len(), 1);
    assert_eq!(store.locks[0].user_id, uid);
    assert_eq!(store.locks[0].video_id, "vid-1");
    assert_eq!(store.locks[0].acquired_at, 10);
    let user = store.get_user_by_id(&uid).unwrap();
    assert_eq!(user.total_videos_generated, 1);
    let last = store.transactions.last().unwrap();
    assert_eq!(last.amount, -100);
    assert_eq!(last.balance_after, 0);
    assert_eq!(last.description, "Video generation cost");

    // A second submission while the first is in flight is refused outright.
    let r = deduct_credits_with_lock(&mut store, &uid, "vid-2", 50, 20);
    assert!(matches!(r, Err(AppError::ConcurrentGeneration)));
    assert_eq!(store.read_balance(&uid).unwrap(), 0);
}
