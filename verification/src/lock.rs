//! The generation lock: a per-account row whose existence is the locked
//! state. Acquisition is one conditional insert against the store, so
//! concurrent attempts serialize there — the mutual-exclusion law at the end
//! states that any run of attempts on an unlocked account admits exactly one
//! success.

use vstd::prelude::*;
use vstd::string::StringExecFns;
use crate::errors::LockError;
use crate::models::GenerationLock;
use crate::store::{same_store, Store};

verus! {

/// What one acquire attempt for account `uid` guarantees, by §4.2 of the
/// design: success only on an unlocked account, which it locks; failure only
/// on a locked account, which it leaves untouched.
pub open spec fn acquire_step(pre: Store, post: Store, uid: Seq<char>, ok: bool) -> bool {
    &&& ok ==> !pre.spec_locked(uid) && post.spec_locked(uid)
    &&& !ok ==> pre.spec_locked(uid) && post.locks@ == pre.locks@
}

impl Store {
    /// Acquires the generation lock for an account: a single atomic
    /// "insert, fail on conflict" — never a read followed by a write.
    pub fn acquire(&mut self, user_id: &str, video_id: &str, now_ms: u64) -> (r: Result<
        (),
        LockError,
    >)
        requires
            old(self).wf(),
        ensures
            final(self).wf(),
            acquire_step(*old(self), *final(self), user_id@, r is Ok),
            match r {
                Ok(()) => {
                    &&& !old(self).spec_locked(user_id@)
                    &&& final(self).spec_locked(user_id@)
                    &&& final(self).locks@.len() == old(self).locks@.len() + 1
                    &&& final(self).locks@.drop_last() == old(self).locks@
                    &&& final(self).locks@.last().user_id@ == user_id@
                    &&& final(self).locks@.last().video_id@ == video_id@
                    &&& final(self).locks@.last().acquired_at == now_ms
                    &&& final(self).users@ == old(self).users@
                    &&& final(self).transactions@ == old(self).transactions@
                    &&& final(self).webhook_events@ == old(self).webhook_events@
                    &&& final(self).videos@ == old(self).videos@
                },
                Err(LockError::AlreadyLocked) => {
                    &&& old(self).spec_locked(user_id@)
                    &&& same_store(*old(self), *final(self))
                },
            },
    {
        match self.find_lock(user_id) {
            Some(_) => Err(LockError::AlreadyLocked),
            None => {
                let l = GenerationLock {
                    user_id: String::from_str(user_id),
                    video_id: String::from_str(video_id),
                    acquired_at: now_ms,
                };
                self.locks.push(l);
                proof {
                    assert(self.locks@.drop_last() =~= old(self).locks@);
                    let n = old(self).locks@.len() as int;
                    assert(self.locks@[n].user_id@ == user_id@);
                    assert forall|i: int, j: int|
                        0 <= i < j < self.locks@.len() implies #[trigger] self.locks@[i].user_id@
                        != #[trigger] self.locks@[j].user_id@ by {
                        if j < n {
                            assert(self.locks@[i] == old(self).locks@[i]);
                            assert(self.locks@[j] == old(self).locks@[j]);
                        } else {
                            assert(self.locks@[i] == old(self).locks@[i]);
                            assert(!old(self).spec_locked(user_id@));
                        }
                    }
                }
                Ok(())
            },
        }
    }

    /// Releases the generation lock for an account: an unconditional delete,
    /// idempotent — a no-op when no lock row exists.
    pub fn release(&mut self, user_id: &str)
        requires
            old(self).wf(),
        ensures
            final(self).wf(),
            !final(self).spec_locked(user_id@),
            !old(self).spec_locked(user_id@) ==> final(self).locks@ == old(self).locks@,
            old(self).spec_locked(user_id@) ==> exists|i: int|
                0 <= i < old(self).locks@.len() && (#[trigger] old(self).locks@[i]).user_id@
                    == user_id@ && final(self).locks@ == old(self).locks@.remove(i),
            final(self).users@ == old(self).users@,
            final(self).transactions@ == old(self).transactions@,
            final(self).webhook_events@ == old(self).webhook_events@,
            final(self).videos@ == old(self).videos@,
    {
        match self.find_lock(user_id) {
            Some(i) => {
                self.locks.remove(i);
                proof {
                    let pre = old(self).locks@;
                    let post = self.locks@;
                    let k = i as int;
                    assert(post == pre.remove(k));
                    assert forall|j: int| 0 <= j < post.len() implies #[trigger] post[j] == (
                    if j < k {
                        pre[j]
                    } else {
                        pre[j + 1]
                    }) by {
                        assert(post == pre.subrange(0, k) + pre.subrange(k + 1, pre.len() as int));
                    }
                    assert forall|j: int|
                        0 <= j < post.len() implies #[trigger] post[j].user_id@ != user_id@ by {
                        if j < k {
                            assert(pre[j].user_id@ != pre[k].user_id@);
                        } else {
                            assert(pre[k].user_id@ != pre[j + 1].user_id@);
                        }
                    }
                    assert forall|a: int, b: int|
                        0 <= a < b < post.len() implies #[trigger] post[a].user_id@
                        != #[trigger] post[b].user_id@ by {
                        let a0 = if a < k {
                            a
                        } else {
                            a + 1
                        };
                        let b0 = if b < k {
                            b
                        } else {
                            b + 1
                        };
                        assert(pre[a0].user_id@ != pre[b0].user_id@);
                    }
                }
            },
            None => {},
        }
    }
}

/// How many of a run of outcomes succeeded.
pub open spec fn count_true(bs: Seq<bool>) -> int
    decreases bs.len(),
{
    if bs.len() == 0 {
        0
    } else {
        (if bs[0] {
            1int
        } else {
            0int
        }) + count_true(bs.skip(1))
    }
}

/// Once an account is locked, every further acquire attempt for it fails,
/// and the account stays locked.
pub proof fn lemma_acquire_all_fail(stores: Seq<Store>, uid: Seq<char>, oks: Seq<bool>)
    requires
        stores.len() == oks.len() + 1,
        stores[0].spec_locked(uid),
        forall|i: int|
            0 <= i < oks.len() ==> acquire_step(#[trigger] stores[i], stores[i + 1], uid, oks[i]),
    ensures
        count_true(oks) == 0,
        stores.last().spec_locked(uid),
    decreases oks.len(),
{
    if oks.len() == 0 {
    } else {
        assert(acquire_step(stores[0], stores[1], uid, oks[0]));
        assert(!oks[0]);
        assert(stores[1].spec_locked(uid));
        let stores2 = stores.skip(1);
        let oks2 = oks.skip(1);
        assert forall|i: int|
            0 <= i < oks2.len() implies acquire_step(
            #[trigger] stores2[i],
            stores2[i + 1],
            uid,
            oks2[i],
        ) by {
            assert(stores2[i] == stores[i + 1]);
            assert(stores2[i + 1] == stores[i + 2]);
            assert(oks2[i] == oks[i + 1]);
            assert(acquire_step(stores[i + 1], stores[i + 2], uid, oks[i + 1]));
        }
        lemma_acquire_all_fail(stores2, uid, oks2);
        assert(stores2.last() == stores.last());
    }
}

/// The mutual-exclusion law for the generation lock: however many acquire
/// attempts for one account the store serializes, starting from an unlocked
/// account, exactly one succeeds — the first — and all the rest fail.
pub proof fn lemma_acquire_mutual_exclusion(stores: Seq<Store>, uid: Seq<char>, oks: Seq<bool>)
    requires
        stores.len() == oks.len() + 1,
        oks.len() >= 1,
        !stores[0].spec_locked(uid),
        forall|i: int|
            0 <= i < oks.len() ==> acquire_step(#[trigger] stores[i], stores[i + 1], uid, oks[i]),
    ensures
        count_true(oks) == 1,
        oks[0],
{
    assert(acquire_step(stores[0], stores[1], uid, oks[0]));
    assert(oks[0]);
    assert(stores[1].spec_locked(uid));
    let stores2 = stores.skip(1);
    let oks2 = oks.skip(1);
    assert forall|i: int|
        0 <= i < oks2.len() implies acquire_step(
        #[trigger] stores2[i],
        stores2[i + 1],
        uid,
        oks2[i],
    ) by {
        assert(stores2[i] == stores[i + 1]);
        assert(stores2[i + 1] == stores[i + 2]);
        assert(oks2[i] == oks[i + 1]);
        assert(acquire_step(stores[i + 1], stores[i + 2], uid, oks[i + 1]));
    }
    lemma_acquire_all_fail(stores2, uid, oks2);
}

} // verus!
