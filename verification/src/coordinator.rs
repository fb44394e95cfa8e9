//! The submission saga around the external provider call. The locked debit
//! (`deduct_credits_with_lock`) opens it; the caller then submits the job to
//! the provider, and depending on the outcome either commits — persisting
//! the job record and releasing the lock — or compensates — refunding the
//! debit and releasing the lock. Consistency between "charged" and "job
//! accepted" rests on the compensation, which the law at the end states.

use vstd::prelude::*;
use crate::credits::{deduct_outcome, refund_credits};
use crate::errors::AppError;
use crate::ledger::{txn_matches, users_balance_updated};
use crate::models::{CreateVideoResponse, TransactionKind, Video, VideoStatus};
use crate::store::{
    lemma_refund_count_push, refund_count, same_store, Store,
};

verus! {

/// The lock row for `uid` is gone; the rest of the lock table is kept.
pub open spec fn lock_released(pre: Store, post: Store, uid: Seq<char>) -> bool {
    &&& !post.spec_locked(uid)
    &&& !pre.spec_locked(uid) ==> post.locks@ == pre.locks@
    &&& pre.spec_locked(uid) ==> exists|i: int|
        0 <= i < pre.locks@.len() && (#[trigger] pre.locks@[i]).user_id@ == uid && post.locks@
            == pre.locks@.remove(i)
}

/// What compensation guarantees: the first compensation for a job appends
/// the one refund row and restores the cost to the balance; any later one
/// changes neither ledger nor balance; either way exactly one refund row
/// remains and the lock is gone. An unknown account changes nothing — the
/// lock then stays held, the documented risk when compensation itself fails.
pub open spec fn compensate_outcome(
    pre: Store,
    post: Store,
    uid: Seq<char>,
    vid: Seq<char>,
    cost: i64,
    now_ms: u64,
    r: Result<i64, AppError>,
) -> bool {
    match r {
        Ok(nb) => {
            &&& pre.spec_has_user(uid)
            &&& refund_count(post.transactions@, vid) == 1
            &&& nb == pre.spec_balance(uid) + (if refund_count(pre.transactions@, vid) == 0 {
                cost as int
            } else {
                0int
            })
            &&& post.spec_balance(uid) == nb as int
            &&& lock_released(pre, post, uid)
            &&& if refund_count(pre.transactions@, vid) == 0 {
                &&& post.transactions@.len() == pre.transactions@.len() + 1
                &&& post.transactions@.drop_last() == pre.transactions@
                &&& txn_matches(
                    post.transactions@.last(),
                    uid,
                    cost as int,
                    pre.spec_balance(uid) + cost,
                    TransactionKind::Refund,
                    "Video generation failed - credits refunded"@,
                    Some(vid),
                    None,
                    now_ms,
                )
                &&& users_balance_updated(pre.users@, post.users@, uid, nb, now_ms, false)
            } else {
                post.transactions@ == pre.transactions@ && post.users@ == pre.users@
            }
            &&& post.webhook_events@ == pre.webhook_events@
            &&& post.videos@ == pre.videos@
        },
        Err(e) => {
            &&& e matches AppError::NotFound(m) && m@ == "User not found"@
            &&& !pre.spec_has_user(uid)
            &&& same_store(pre, post)
        },
    }
}

/// The compensating path of the saga: refund the job's cost — idempotently —
/// then release the generation lock. Mirrors the order of the failure
/// handler: a failed refund surfaces before the lock is touched.
pub fn compensate_submission(
    store: &mut Store,
    user_id: &str,
    video_id: &str,
    cost: i64,
    now_ms: u64,
) -> (r: Result<i64, AppError>)
    requires
        old(store).wf(),
        cost > 0,
        refund_count(old(store).transactions@, video_id@) == 0 ==> old(store).spec_balance(
            user_id@,
        ) + cost <= i64::MAX,
    ensures
        final(store).wf(),
        compensate_outcome(*old(store), *final(store), user_id@, video_id@, cost, now_ms, r),
{
    match refund_credits(store, user_id, video_id, cost, now_ms) {
        Ok(nb) => {
            let ghost mid = *store;
            store.release(user_id);
            proof {
                assert(mid.locks@ == old(store).locks@);
                if old(store).spec_locked(user_id@) {
                    let w = choose|w: int|
                        0 <= w < old(store).locks@.len() && (#[trigger] old(
                            store,
                        ).locks@[w]).user_id@ == user_id@;
                    assert(mid.locks@[w].user_id@ == user_id@);
                    assert(mid.spec_locked(user_id@));
                    let i = choose|i: int|
                        0 <= i < mid.locks@.len() && (#[trigger] mid.locks@[i]).user_id@
                            == user_id@ && store.locks@ == mid.locks@.remove(i);
                    assert(old(store).locks@[i].user_id@ == user_id@);
                    assert(store.locks@ == old(store).locks@.remove(i));
                } else {
                    if mid.spec_locked(user_id@) {
                        let w = choose|w: int|
                            0 <= w < mid.locks@.len() && (#[trigger] mid.locks@[w]).user_id@
                                == user_id@;
                        assert(old(store).locks@[w].user_id@ == user_id@);
                        assert(false);
                    }
                }
            }
            Ok(nb)
        },
        Err(e) => Err(e),
    }
}

/// The committing path of the saga: persist the job record the provider
/// accepted, then release the generation lock and answer with the job's id,
/// its cost and the balance the debit left.
pub fn commit_submission(
    store: &mut Store,
    user_id: &str,
    video: Video,
    credits_cost: i64,
    new_balance: i64,
) -> (r: Result<CreateVideoResponse, AppError>)
    requires
        old(store).wf(),
        video.credits_cost > 0,
    ensures
        final(store).wf(),
        match r {
            Ok(resp) => {
                &&& final(store).videos@ == old(store).videos@.push(video)
                &&& !old(store).spec_has_video(video.id@)
                &&& !old(store).spec_has_video_openai(video.openai_video_id@)
                &&& lock_released(*old(store), *final(store), user_id@)
                &&& final(store).users@ == old(store).users@
                &&& final(store).transactions@ == old(store).transactions@
                &&& final(store).webhook_events@ == old(store).webhook_events@
                &&& resp.id == video.id
                &&& resp.status == VideoStatus::Queued
                &&& resp.credits_cost == credits_cost
                &&& resp.new_balance == new_balance
                &&& resp.estimated_wait_seconds == 120
            },
            Err(e) => {
                &&& e matches AppError::DatabaseError(m) && m@ == "duplicate video id"@
                &&& old(store).spec_has_video(video.id@) || old(store).spec_has_video_openai(
                    video.openai_video_id@,
                )
                &&& same_store(*old(store), *final(store))
            },
        },
{
    let id_copy = video.id.clone();
    match store.insert_video(video) {
        Ok(()) => {
            let ghost mid = *store;
            store.release(user_id);
            proof {
                assert(mid.locks@ == old(store).locks@);
                if old(store).spec_locked(user_id@) {
                    let w = choose|w: int|
                        0 <= w < old(store).locks@.len() && (#[trigger] old(
                            store,
                        ).locks@[w]).user_id@ == user_id@;
                    assert(mid.locks@[w].user_id@ == user_id@);
                    assert(mid.spec_locked(user_id@));
                    let i = choose|i: int|
                        0 <= i < mid.locks@.len() && (#[trigger] mid.locks@[i]).user_id@
                            == user_id@ && store.locks@ == mid.locks@.remove(i);
                    assert(old(store).locks@[i].user_id@ == user_id@);
                    assert(store.locks@ == old(store).locks@.remove(i));
                } else {
                    if mid.spec_locked(user_id@) {
                        let w = choose|w: int|
                            0 <= w < mid.locks@.len() && (#[trigger] mid.locks@[w]).user_id@
                                == user_id@;
                        assert(old(store).locks@[w].user_id@ == user_id@);
                        assert(false);
                    }
                }
            }
            Ok(
                CreateVideoResponse {
                    id: id_copy,
                    status: VideoStatus::Queued,
                    credits_cost,
                    new_balance,
                    estimated_wait_seconds: 120,
                },
            )
        },
        Err(e) => Err(e),
    }
}

/// The saga guarantee: a locked debit whose submission the provider rejects
/// is fully compensated — the balance returns to its value before the
/// submission, exactly one refund row references the job, and the account's
/// lock is gone, so a later submission can acquire it again.
pub proof fn lemma_saga_compensation(
    s0: Store,
    s1: Store,
    s2: Store,
    uid: Seq<char>,
    vid: Seq<char>,
    cost: i64,
    nb: i64,
    now1: u64,
    now2: u64,
    r2: Result<i64, AppError>,
)
    requires
        s0.wf(),
        s1.wf(),
        refund_count(s0.transactions@, vid) == 0,
        deduct_outcome(s0, s1, uid, vid, cost, now1, Ok(nb)),
        compensate_outcome(s1, s2, uid, vid, cost, now2, r2),
    ensures
        r2 is Ok,
        r2->Ok_0 == s0.spec_balance(uid),
        s2.spec_balance(uid) == s0.spec_balance(uid),
        refund_count(s2.transactions@, vid) == 1,
        !s2.spec_locked(uid),
{
    assert(s0.spec_has_user(uid));
    let k = choose|k: int| 0 <= k < s0.users@.len() && #[trigger] s0.users@[k].id@ == uid;
    assert(users_balance_updated(s0.users@, s1.users@, uid, nb, now1, true));
    assert(s1.users@[k].id == s0.users@[k].id);
    assert(s1.spec_has_user(uid));
    assert(r2 is Ok);
    assert(s1.transactions@ =~= s0.transactions@.push(s1.transactions@.last()));
    lemma_refund_count_push(s0.transactions@, vid, s1.transactions@.last());
    assert(refund_count(s1.transactions@, vid) == 0);
}

} // verus!
