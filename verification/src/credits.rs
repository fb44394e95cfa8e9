//! The credit operations the handlers drive: the locked debit that opens a
//! submission, the unconditional lock release, purchases, and the idempotent
//! compensating refund — with the refund-idempotence law at the end.

use vstd::prelude::*;
use vstd::string::StringExecFns;
use crate::errors::{AppError, LedgerError, LockError};
use crate::ledger::{ledger_entry_applied, opt_ref_view, txn_matches, users_balance_updated};
use crate::models::TransactionKind;
use crate::store::{
    is_refund_for, lemma_refund_count_push, lemma_refund_count_pos, lemma_user_index,
    refund_count, same_store, Store,
};

verus! {

/// What the locked debit guarantees. On success the account is locked for
/// this job and charged in one ledger step; the lock stays held for the
/// submission that follows. `ConcurrentGeneration` and `InsufficientCredits`
/// leave the store exactly as it was. An unknown account leaves the fresh
/// lock held — the documented risk of a failure between acquisition and
/// release.
pub open spec fn deduct_outcome(
    pre: Store,
    post: Store,
    uid: Seq<char>,
    vid: Seq<char>,
    amount: i64,
    now_ms: u64,
    r: Result<i64, AppError>,
) -> bool {
    match r {
        Ok(nb) => {
            &&& !pre.spec_locked(uid)
            &&& pre.spec_has_user(uid)
            &&& pre.spec_balance(uid) >= amount
            &&& nb == pre.spec_balance(uid) - amount
            &&& post.spec_balance(uid) == nb as int
            &&& post.spec_locked(uid)
            &&& post.locks@.len() == pre.locks@.len() + 1
            &&& post.locks@.drop_last() == pre.locks@
            &&& post.locks@.last().user_id@ == uid
            &&& post.locks@.last().video_id@ == vid
            &&& post.locks@.last().acquired_at == now_ms
            &&& post.transactions@.len() == pre.transactions@.len() + 1
            &&& post.transactions@.drop_last() == pre.transactions@
            &&& txn_matches(
                post.transactions@.last(),
                uid,
                -(amount as int),
                nb as int,
                TransactionKind::VideoGeneration,
                "Video generation cost"@,
                Some(vid),
                None,
                now_ms,
            )
            &&& users_balance_updated(pre.users@, post.users@, uid, nb, now_ms, true)
            &&& post.webhook_events@ == pre.webhook_events@
            &&& post.videos@ == pre.videos@
        },
        Err(e) => match e {
            AppError::ConcurrentGeneration => pre.spec_locked(uid) && same_store(pre, post),
            AppError::InsufficientCredits => {
                &&& !pre.spec_locked(uid)
                &&& pre.spec_has_user(uid)
                &&& pre.spec_balance(uid) < amount
                &&& same_store(pre, post)
            },
            AppError::NotFound(m) => {
                &&& m@ == "User not found"@
                &&& !pre.spec_locked(uid)
                &&& !pre.spec_has_user(uid)
                &&& post.users@ == pre.users@
                &&& post.transactions@ == pre.transactions@
                &&& post.locks@.len() == pre.locks@.len() + 1
                &&& post.locks@.drop_last() == pre.locks@
                &&& post.locks@.last().user_id@ == uid
                &&& post.webhook_events@ == pre.webhook_events@
                &&& post.videos@ == pre.videos@
            },
            _ => false,
        },
    }
}

/// Step 1 and 2 of the submission saga: acquire the generation lock, then
/// debit the cost. `ConcurrentGeneration` when another job is in flight —
/// no debit happens; `InsufficientCredits` when the balance is short — the
/// lock is released again and nothing changed.
pub fn deduct_credits_with_lock(
    store: &mut Store,
    user_id: &str,
    video_id: &str,
    amount: i64,
    now_ms: u64,
) -> (r: Result<i64, AppError>)
    requires
        old(store).wf(),
        amount > 0,
        old(store).spec_has_user(user_id@) ==> old(store).spec_user(
            user_id@,
        ).total_videos_generated < i64::MAX,
    ensures
        final(store).wf(),
        deduct_outcome(*old(store), *final(store), user_id@, video_id@, amount, now_ms, r),
{
    match store.acquire(user_id, video_id, now_ms) {
        Err(LockError::AlreadyLocked) => Err(AppError::ConcurrentGeneration),
        Ok(()) => {
            let ghost mid = *store;
            match store.debit(
                user_id,
                amount,
                video_id,
                "Video generation cost",
                true,
                now_ms,
            ) {
                Ok(nb) => {
                    proof {
                        assert(mid.transactions@ == old(store).transactions@);
                        assert(mid.spec_balance(user_id@) == old(store).spec_balance(user_id@));
                        assert(store.locks@ == mid.locks@);
                    }
                    Ok(nb)
                },
                Err(LedgerError::InsufficientFunds) => {
                    let ghost mid2 = *store;
                    store.release(user_id);
                    proof {
                        let n = old(store).locks@.len() as int;
                        assert(mid2.locks@ == mid.locks@);
                        assert(mid2.locks@[n].user_id@ == user_id@);
                        assert(mid2.spec_locked(user_id@));
                        let i = choose|i: int|
                            0 <= i < mid2.locks@.len() && (#[trigger] mid2.locks@[i]).user_id@
                                == user_id@ && store.locks@ == mid2.locks@.remove(i);
                        if i < n {
                            assert(mid2.locks@[i] == old(store).locks@[i]);
                            assert(old(store).spec_locked(user_id@));
                            assert(false);
                        }
                        assert(store.locks@ =~= old(store).locks@);
                    }
                    Err(AppError::InsufficientCredits)
                },
                Err(LedgerError::AccountNotFound) => {
                    Err(AppError::NotFound(String::from_str("User not found")))
                },
            }
        },
    }
}

/// Releases the account's generation lock; a no-op when none is held.
pub fn release_lock(store: &mut Store, user_id: &str) -> (r: Result<(), AppError>)
    requires
        old(store).wf(),
    ensures
        final(store).wf(),
        r is Ok,
        !final(store).spec_locked(user_id@),
        !old(store).spec_locked(user_id@) ==> final(store).locks@ == old(store).locks@,
        old(store).spec_locked(user_id@) ==> exists|i: int|
            0 <= i < old(store).locks@.len() && (#[trigger] old(store).locks@[i]).user_id@
                == user_id@ && final(store).locks@ == old(store).locks@.remove(i),
        final(store).users@ == old(store).users@,
        final(store).transactions@ == old(store).transactions@,
        final(store).webhook_events@ == old(store).webhook_events@,
        final(store).videos@ == old(store).videos@,
{
    store.release(user_id);
    Ok(())
}

/// Credits a purchase to the account: the balance rises by `amount` and a
/// purchase row carrying the payment reference is appended, in one step.
pub fn add_credits(
    store: &mut Store,
    user_id: &str,
    amount: i64,
    description: &str,
    revenuecat_transaction_id: Option<&String>,
    now_ms: u64,
) -> (r: Result<i64, AppError>)
    requires
        old(store).wf(),
        amount > 0,
        old(store).spec_balance(user_id@) + amount <= i64::MAX,
    ensures
        final(store).wf(),
        match r {
            Ok(nb) => {
                &&& old(store).spec_has_user(user_id@)
                &&& nb == old(store).spec_balance(user_id@) + amount
                &&& final(store).spec_balance(user_id@) == nb as int
                &&& ledger_entry_applied(
                    *old(store),
                    *final(store),
                    user_id@,
                    amount as int,
                    nb,
                    TransactionKind::Purchase,
                    description@,
                    None,
                    opt_ref_view(revenuecat_transaction_id),
                    now_ms,
                    false,
                )
            },
            Err(e) => {
                &&& e matches AppError::NotFound(m) && m@ == "User not found"@
                &&& !old(store).spec_has_user(user_id@)
                &&& same_store(*old(store), *final(store))
            },
        },
{
    match store.credit(
        user_id,
        amount,
        TransactionKind::Purchase,
        description,
        None,
        revenuecat_transaction_id,
        now_ms,
    ) {
        Ok(nb) => Ok(nb),
        Err(_) => Err(AppError::NotFound(String::from_str("User not found"))),
    }
}

/// What one refund call guarantees: on the first refund for a job, exactly
/// one compensating credit; on any later one, the current balance and no
/// change at all.
pub open spec fn refund_outcome(
    pre: Store,
    post: Store,
    uid: Seq<char>,
    vid: Seq<char>,
    amount: i64,
    now_ms: u64,
    r: Result<i64, AppError>,
) -> bool {
    match r {
        Ok(nb) => {
            &&& pre.spec_has_user(uid)
            &&& refund_count(post.transactions@, vid) == 1
            &&& if refund_count(pre.transactions@, vid) >= 1 {
                same_store(pre, post) && nb == pre.spec_balance(uid)
            } else {
                nb == pre.spec_balance(uid) + amount && ledger_entry_applied(
                    pre,
                    post,
                    uid,
                    amount as int,
                    nb,
                    TransactionKind::Refund,
                    "Video generation failed - credits refunded"@,
                    Some(vid),
                    None,
                    now_ms,
                    false,
                )
            }
        },
        Err(e) => {
            &&& e matches AppError::NotFound(m) && m@ == "User not found"@
            &&& !pre.spec_has_user(uid)
            &&& same_store(pre, post)
        },
    }
}

/// The idempotent compensating credit: refunds a job's cost once, and only
/// once, however often it is called.
pub fn refund_credits(store: &mut Store, user_id: &str, video_id: &str, amount: i64, now_ms: u64)
    -> (r: Result<i64, AppError>)
    requires
        old(store).wf(),
        amount > 0,
        refund_count(old(store).transactions@, video_id@) == 0 ==> old(store).spec_balance(
            user_id@,
        ) + amount <= i64::MAX,
    ensures
        final(store).wf(),
        refund_outcome(*old(store), *final(store), user_id@, video_id@, amount, now_ms, r),
{
    match store.find_refund(video_id) {
        Some(i) => {
            proof {
                lemma_refund_count_pos(store.transactions@, video_id@, i as int);
            }
            match store.get_user_by_id(user_id) {
                Ok(u) => {
                    proof {
                        let k = store.spec_user_index(user_id@);
                        assert(store.users@[k].credits_balance == store.spec_balance(user_id@));
                    }
                    Ok(u.credits_balance)
                },
                Err(e) => Err(e),
            }
        },
        None => {
            let vid_owned = String::from_str(video_id);
            let r = store.credit(
                user_id,
                amount,
                TransactionKind::Refund,
                "Video generation failed - credits refunded",
                Some(&vid_owned),
                None,
                now_ms,
            );
            match r {
                Ok(nb) => {
                    proof {
                        let post = store.transactions@;
                        let pre = old(store).transactions@;
                        assert(post =~= pre.push(post.last()));
                        lemma_refund_count_push(pre, video_id@, post.last());
                        assert(is_refund_for(post.last(), video_id@));
                    }
                    Ok(nb)
                },
                Err(LedgerError::AccountNotFound) => Err(
                    AppError::NotFound(String::from_str("User not found")),
                ),
                Err(LedgerError::InsufficientFunds) => Err(
                    AppError::NotFound(String::from_str("User not found")),
                ),
            }
        },
    }
}

/// Refund idempotence: once a refund for a job went through, every further
/// refund call for it returns the same balance and changes nothing, and
/// exactly one refund transaction exists.
pub proof fn lemma_refund_idempotent(
    s0: Store,
    s1: Store,
    s2: Store,
    uid: Seq<char>,
    vid: Seq<char>,
    amount: i64,
    now1: u64,
    now2: u64,
    r1: Result<i64, AppError>,
    r2: Result<i64, AppError>,
)
    requires
        s0.wf(),
        s1.wf(),
        refund_outcome(s0, s1, uid, vid, amount, now1, r1),
        refund_outcome(s1, s2, uid, vid, amount, now2, r2),
        r1 is Ok,
    ensures
        r2 is Ok,
        same_store(s1, s2),
        refund_count(s1.transactions@, vid) == 1,
        refund_count(s2.transactions@, vid) == 1,
        r1->Ok_0 == r2->Ok_0,
{
    assert(s0.spec_has_user(uid));
    let k = choose|k: int| 0 <= k < s0.users@.len() && #[trigger] s0.users@[k].id@ == uid;
    if refund_count(s0.transactions@, vid) >= 1 {
        assert(s1.users@ == s0.users@);
        assert(s1.users@[k].id@ == uid);
    } else {
        assert(users_balance_updated(s0.users@, s1.users@, uid, r1->Ok_0, now1, false));
        assert(s1.users@[k].id == s0.users@[k].id);
    }
    assert(s1.spec_has_user(uid));
    assert(r2 is Ok);
    assert(refund_count(s1.transactions@, vid) >= 1);
    assert(same_store(s1, s2));
    let nb1 = r1->Ok_0;
    let nb2 = r2->Ok_0;
    assert(nb2 == s1.spec_balance(uid));
    if refund_count(s0.transactions@, vid) >= 1 {
        assert(s1.transactions@ == s0.transactions@);
        assert(nb1 == s0.spec_balance(uid));
    } else {
        assert(s1.spec_balance(uid) == nb1 as int);
    }
}

} // verus!
