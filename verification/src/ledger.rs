//! The ledger store: balance changes happen only together with an appended
//! transaction row, in one step, and every operation preserves the store's
//! invariants — in particular that each balance equals the sum of the
//! account's transaction amounts.

use vstd::prelude::*;
use vstd::string::StringExecFns;
use crate::errors::{AppError, LedgerError};
use crate::ids::new_uuid;
use crate::models::{CreditTransaction, TransactionKind, User};
use crate::pricing::WELCOME_CREDITS;
use crate::store::{
    is_refund_for, ledger_sum, lemma_ledger_sum_no_match, lemma_ledger_sum_push,
    lemma_refund_count_push, lemma_user_index, opt_str_view, refund_count, same_store, Store,
};

verus! {

/// The view of an optional borrowed string.
pub open spec fn opt_ref_view(o: Option<&String>) -> Option<Seq<char>> {
    match o {
        Some(s) => Some(s@),
        None => None,
    }
}

/// The account row for `uid` now shows balance `nb` (and, when `bump` is
/// set, one more generated video); every other row and every other field is
/// untouched.
pub open spec fn users_balance_updated(
    pre: Seq<User>,
    post: Seq<User>,
    uid: Seq<char>,
    nb: i64,
    now_ms: u64,
    bump: bool,
) -> bool {
    &&& post.len() == pre.len()
    &&& forall|j: int| 0 <= j < pre.len() && (#[trigger] pre[j]).id@ != uid ==> post[j] == pre[j]
    &&& forall|j: int|
        0 <= j < pre.len() && (#[trigger] pre[j]).id@ == uid ==> {
            &&& post[j].id == pre[j].id
            &&& post[j].apple_user_id == pre[j].apple_user_id
            &&& post[j].email == pre[j].email
            &&& post[j].credits_balance == nb
            &&& post[j].total_videos_generated == pre[j].total_videos_generated + (if bump {
                1int
            } else {
                0int
            })
            &&& post[j].created_at == pre[j].created_at
            &&& post[j].updated_at == now_ms
        }
}

/// The fields of one ledger row.
pub open spec fn txn_matches(
    t: CreditTransaction,
    uid: Seq<char>,
    amount: int,
    balance_after: int,
    kind: TransactionKind,
    desc: Seq<char>,
    vid: Option<Seq<char>>,
    pref: Option<Seq<char>>,
    now_ms: u64,
) -> bool {
    &&& t.user_id@ == uid
    &&& t.amount == amount
    &&& t.balance_after == balance_after
    &&& t.transaction_type == kind
    &&& t.description@ == desc
    &&& opt_str_view(t.video_id) == vid
    &&& opt_str_view(t.revenuecat_transaction_id) == pref
    &&& t.metadata is None
    &&& t.created_at == now_ms
}

/// One ledger row appended and the one account row updated to match; locks,
/// notification records and videos untouched.
pub open spec fn ledger_entry_applied(
    pre: Store,
    post: Store,
    uid: Seq<char>,
    amount: int,
    nb: i64,
    kind: TransactionKind,
    desc: Seq<char>,
    vid: Option<Seq<char>>,
    pref: Option<Seq<char>>,
    now_ms: u64,
    bump: bool,
) -> bool {
    &&& post.transactions@.len() == pre.transactions@.len() + 1
    &&& post.transactions@.drop_last() == pre.transactions@
    &&& txn_matches(post.transactions@.last(), uid, amount, nb as int, kind, desc, vid, pref, now_ms)
    &&& users_balance_updated(pre.users@, post.users@, uid, nb, now_ms, bump)
    &&& post.locks@ == pre.locks@
    &&& post.webhook_events@ == pre.webhook_events@
    &&& post.videos@ == pre.videos@
}

/// Well-formedness carries over a ledger entry: one transaction pushed for
/// the account at `idx`, whose row is updated to the new balance.
proof fn lemma_ledger_post_wf(
    pre: Store,
    post: Store,
    idx: int,
    t: CreditTransaction,
    u2: User,
    nb: i64,
    now_ms: u64,
    bump: bool,
)
    requires
        pre.wf(),
        0 <= idx < pre.users@.len(),
        t.user_id@ == pre.users@[idx].id@,
        nb as int == pre.users@[idx].credits_balance + t.amount,
        nb >= 0,
        t.transaction_type == TransactionKind::Refund ==> match t.video_id {
            Some(v) => refund_count(pre.transactions@, v@) == 0,
            None => false,
        },
        bump ==> pre.users@[idx].total_videos_generated < i64::MAX,
        post.transactions@ == pre.transactions@.push(t),
        post.users@ == pre.users@.update(idx, u2),
        u2.id == pre.users@[idx].id,
        u2.apple_user_id == pre.users@[idx].apple_user_id,
        u2.email == pre.users@[idx].email,
        u2.credits_balance == nb,
        u2.total_videos_generated == pre.users@[idx].total_videos_generated + (if bump {
            1int
        } else {
            0int
        }),
        u2.created_at == pre.users@[idx].created_at,
        u2.updated_at == now_ms,
        post.locks@ == pre.locks@,
        post.webhook_events@ == pre.webhook_events@,
        post.videos@ == pre.videos@,
    ensures
        post.wf(),
        forall|w: Seq<char>| #[trigger]
            ledger_sum(post.transactions@, w) == ledger_sum(pre.transactions@, w) + (
            if t.user_id@ == w {
                t.amount as int
            } else {
                0int
            }),
        users_balance_updated(pre.users@, post.users@, t.user_id@, nb, now_ms, bump),
{
    let uid = t.user_id@;
    assert(forall|j: int|
        0 <= j < post.users@.len() ==> (#[trigger] post.users@[j]).id@ == pre.users@[j].id@
            && post.users@[j].apple_user_id@ == pre.users@[j].apple_user_id@);
    assert forall|w: Seq<char>| #[trigger]
        ledger_sum(post.transactions@, w) == ledger_sum(pre.transactions@, w) + (
        if t.user_id@ == w {
            t.amount as int
        } else {
            0int
        }) by {
        lemma_ledger_sum_push(pre.transactions@, w, t);
    }
    assert forall|j: int| 0 <= j < post.users@.len() implies {
        &&& (#[trigger] post.users@[j]).credits_balance >= 0
        &&& post.users@[j].credits_balance == ledger_sum(post.transactions@, post.users@[j].id@)
        &&& post.users@[j].total_videos_generated >= 0
    } by {
        if j != idx {
            assert(pre.users@[j].id@ != uid);
        }
    }
    assert forall|i: int|
        0 <= i < post.transactions@.len() implies post.spec_has_user(
        (#[trigger] post.transactions@[i]).user_id@,
    ) by {
        if i < pre.transactions@.len() {
            assert(post.transactions@[i] == pre.transactions@[i]);
            assert(pre.spec_has_user(pre.transactions@[i].user_id@));
            let k = choose|k: int|
                0 <= k < pre.users@.len() && #[trigger] pre.users@[k].id@
                    == pre.transactions@[i].user_id@;
            assert(post.users@[k].id@ == pre.transactions@[i].user_id@);
        } else {
            assert(post.transactions@[i] == t);
            assert(post.users@[idx].id@ == uid);
        }
    }
    assert forall|vid: Seq<char>| #[trigger] refund_count(post.transactions@, vid) <= 1 by {
        lemma_refund_count_push(pre.transactions@, vid, t);
        if is_refund_for(t, vid) {
            assert(refund_count(pre.transactions@, vid) == 0);
        }
    }
    assert(users_balance_updated(pre.users@, post.users@, uid, nb, now_ms, bump)) by {
        assert forall|j: int|
            0 <= j < pre.users@.len() && (#[trigger] pre.users@[j]).id@ != uid implies post.users@[j]
            == pre.users@[j] by {
            if j == idx {
                assert(pre.users@[idx].id@ == uid);
            }
        }
        assert forall|j: int|
            0 <= j < pre.users@.len() && (#[trigger] pre.users@[j]).id@ == uid implies j
            == idx by {
            if j != idx {
                if j < idx {
                    assert(pre.users@[j].id@ != pre.users@[idx].id@);
                } else {
                    assert(pre.users@[idx].id@ != pre.users@[j].id@);
                }
            }
        }
    }
}

impl Store {
    /// Credits an account: in one step the balance rises by `amount` and a
    /// transaction row of the given kind is appended. A refund may only be
    /// recorded once per job, which `refund_credits` guarantees before
    /// calling here.
    pub fn credit(
        &mut self,
        user_id: &str,
        amount: i64,
        kind: TransactionKind,
        description: &str,
        video_id: Option<&String>,
        payment_ref: Option<&String>,
        now_ms: u64,
    ) -> (r: Result<i64, LedgerError>)
        requires
            old(self).wf(),
            amount > 0,
            old(self).spec_balance(user_id@) + amount <= i64::MAX,
            kind == TransactionKind::Refund ==> match video_id {
                Some(v) => refund_count(old(self).transactions@, v@) == 0,
                None => false,
            },
        ensures
            final(self).wf(),
            match r {
                Ok(nb) => {
                    &&& old(self).spec_has_user(user_id@)
                    &&& nb == old(self).spec_balance(user_id@) + amount
                    &&& final(self).spec_balance(user_id@) == nb as int
                    &&& ledger_entry_applied(
                        *old(self),
                        *final(self),
                        user_id@,
                        amount as int,
                        nb,
                        kind,
                        description@,
                        opt_ref_view(video_id),
                        opt_ref_view(payment_ref),
                        now_ms,
                        false,
                    )
                },
                Err(e) => {
                    &&& e == LedgerError::AccountNotFound
                    &&& !old(self).spec_has_user(user_id@)
                    &&& same_store(*old(self), *final(self))
                },
            },
    {
        let idx = match self.find_user(user_id) {
            Some(i) => i,
            None => {
                return Err(LedgerError::AccountNotFound);
            },
        };
        proof {
            lemma_user_index(*self, idx as int, user_id@);
        }
        let bal = self.users[idx].credits_balance;
        let nb = bal + amount;
        let t = CreditTransaction {
            id: new_uuid(),
            user_id: String::from_str(user_id),
            amount,
            balance_after: nb,
            transaction_type: kind,
            description: String::from_str(description),
            video_id: match video_id {
                Some(v) => Some(v.clone()),
                None => None,
            },
            revenuecat_transaction_id: match payment_ref {
                Some(p) => Some(p.clone()),
                None => None,
            },
            metadata: None,
            created_at: now_ms,
        };
        let ghost t_spec = t;
        self.transactions.push(t);
        let u = &mut self.users[idx];
        u.credits_balance = nb;
        u.updated_at = now_ms;
        proof {
            lemma_ledger_post_wf(
                *old(self),
                *self,
                idx as int,
                t_spec,
                self.users@[idx as int],
                nb,
                now_ms,
                false,
            );
            assert(old(self).users@[idx as int].credits_balance == ledger_sum(
                old(self).transactions@,
                old(self).users@[idx as int].id@,
            ));
            assert(self.transactions@.drop_last() =~= old(self).transactions@);
            assert(self.transactions@.last() == t_spec);
        }
        Ok(nb)
    }

    /// Debits an account: fails with `InsufficientFunds` and changes nothing
    /// when the balance is short; otherwise in one step the balance falls by
    /// `amount` and a generation-charge row referencing the job is appended.
    /// With `bump_generated` the account's generation counter rises too.
    pub fn debit(
        &mut self,
        user_id: &str,
        amount: i64,
        video_id: &str,
        description: &str,
        bump_generated: bool,
        now_ms: u64,
    ) -> (r: Result<i64, LedgerError>)
        requires
            old(self).wf(),
            amount > 0,
            bump_generated && old(self).spec_has_user(user_id@) ==> old(self).spec_user(
                user_id@,
            ).total_videos_generated < i64::MAX,
        ensures
            final(self).wf(),
            match r {
                Ok(nb) => {
                    &&& old(self).spec_has_user(user_id@)
                    &&& old(self).spec_balance(user_id@) >= amount
                    &&& nb == old(self).spec_balance(user_id@) - amount
                    &&& final(self).spec_balance(user_id@) == nb as int
                    &&& ledger_entry_applied(
                        *old(self),
                        *final(self),
                        user_id@,
                        -(amount as int),
                        nb,
                        TransactionKind::VideoGeneration,
                        description@,
                        Some(video_id@),
                        None,
                        now_ms,
                        bump_generated,
                    )
                },
                Err(LedgerError::InsufficientFunds) => {
                    &&& old(self).spec_has_user(user_id@)
                    &&& old(self).spec_balance(user_id@) < amount
                    &&& same_store(*old(self), *final(self))
                },
                Err(LedgerError::AccountNotFound) => {
                    &&& !old(self).spec_has_user(user_id@)
                    &&& same_store(*old(self), *final(self))
                },
            },
    {
        let idx = match self.find_user(user_id) {
            Some(i) => i,
            None => {
                return Err(LedgerError::AccountNotFound);
            },
        };
        proof {
            lemma_user_index(*self, idx as int, user_id@);
        }
        let bal = self.users[idx].credits_balance;
        if bal < amount {
            return Err(LedgerError::InsufficientFunds);
        }
        let nb = bal - amount;
        let t = CreditTransaction {
            id: new_uuid(),
            user_id: String::from_str(user_id),
            amount: -amount,
            balance_after: nb,
            transaction_type: TransactionKind::VideoGeneration,
            description: String::from_str(description),
            video_id: Some(String::from_str(video_id)),
            revenuecat_transaction_id: None,
            metadata: None,
            created_at: now_ms,
        };
        let ghost t_spec = t;
        let tvg = self.users[idx].total_videos_generated;
        self.transactions.push(t);
        let u = &mut self.users[idx];
        u.credits_balance = nb;
        u.updated_at = now_ms;
        if bump_generated {
            u.total_videos_generated = tvg + 1;
        }
        proof {
            lemma_ledger_post_wf(
                *old(self),
                *self,
                idx as int,
                t_spec,
                self.users@[idx as int],
                nb,
                now_ms,
                bump_generated,
            );
            assert(old(self).users@[idx as int].credits_balance == ledger_sum(
                old(self).transactions@,
                old(self).users@[idx as int].id@,
            ));
            assert(self.transactions@.drop_last() =~= old(self).transactions@);
            assert(self.transactions@.last() == t_spec);
        }
        Ok(nb)
    }

    /// A point-in-time read of an account's balance.
    pub fn read_balance(&self, user_id: &str) -> (r: Result<i64, LedgerError>)
        requires
            self.wf(),
        ensures
            match r {
                Ok(b) => self.spec_has_user(user_id@) && b == self.spec_balance(user_id@),
                Err(e) => e == LedgerError::AccountNotFound && !self.spec_has_user(user_id@),
            },
    {
        match self.find_user(user_id) {
            Some(i) => {
                proof {
                    lemma_user_index(*self, i as int, user_id@);
                }
                Ok(self.users[i].credits_balance)
            },
            None => Err(LedgerError::AccountNotFound),
        }
    }

    /// The account row with this id.
    pub fn get_user_by_id(&self, user_id: &str) -> (r: Result<User, AppError>)
        requires
            self.wf(),
        ensures
            match r {
                Ok(u) => self.spec_has_user(user_id@) && u == self.spec_user(user_id@),
                Err(e) => {
                    &&& !self.spec_has_user(user_id@)
                    &&& e matches AppError::NotFound(m) && m@ == "User not found"@
                },
            },
    {
        match self.find_user(user_id) {
            Some(i) => {
                proof {
                    lemma_user_index(*self, i as int, user_id@);
                }
                Ok(self.users[i].clone())
            },
            None => Err(AppError::NotFound(String::from_str("User not found"))),
        }
    }

    /// Fetches the account for an external sign-in id, creating it — with
    /// the welcome bonus already credited and its transaction row appended —
    /// on first sight. The `bool` says whether the account was created. The
    /// one failure is a collision of the freshly drawn account id with an
    /// existing row, reported as the store would report a key conflict.
    pub fn get_or_create_user(
        &mut self,
        apple_user_id: &str,
        email: Option<String>,
        now_ms: u64,
    ) -> (r: Result<(User, bool), AppError>)
        requires
            old(self).wf(),
        ensures
            final(self).wf(),
            match r {
                Ok((u, created)) => {
                    if created {
                        &&& !old(self).spec_has_apple_user(apple_user_id@)
                        &&& u.apple_user_id@ == apple_user_id@
                        &&& u.credits_balance == WELCOME_CREDITS
                        &&& u.total_videos_generated == 0
                        &&& u.created_at == now_ms
                        &&& final(self).users@ == old(self).users@.push(u)
                        &&& final(self).transactions@.len() == old(self).transactions@.len() + 1
                        &&& final(self).transactions@.drop_last() == old(self).transactions@
                        &&& txn_matches(
                            final(self).transactions@.last(),
                            u.id@,
                            WELCOME_CREDITS as int,
                            WELCOME_CREDITS as int,
                            TransactionKind::Welcome,
                            "Welcome bonus - Try your first video for free!"@,
                            None,
                            None,
                            now_ms,
                        )
                        &&& final(self).spec_balance(u.id@) == WELCOME_CREDITS
                        &&& final(self).locks@ == old(self).locks@
                        &&& final(self).webhook_events@ == old(self).webhook_events@
                        &&& final(self).videos@ == old(self).videos@
                    } else {
                        &&& old(self).spec_has_apple_user(apple_user_id@)
                        &&& same_store(*old(self), *final(self))
                        &&& exists|i: int|
                            0 <= i < old(self).users@.len() && (#[trigger] old(
                                self,
                            ).users@[i]).apple_user_id@ == apple_user_id@ && u == old(
                                self,
                            ).users@[i]
                    }
                },
                Err(e) => {
                    &&& e matches AppError::DatabaseError(m) && m@ == "duplicate user id"@
                    &&& !old(self).spec_has_apple_user(apple_user_id@)
                    &&& same_store(*old(self), *final(self))
                },
            },
    {
        match self.find_user_by_apple(apple_user_id) {
            Some(i) => {
                let u = self.users[i].clone();
                Ok((u, false))
            },
            None => {
                let mut user = User::new(String::from_str(apple_user_id), email, now_ms);
                user.credits_balance = WELCOME_CREDITS;
                match self.find_user(user.id.as_str()) {
                    Some(_) => Err(AppError::DatabaseError(String::from_str("duplicate user id"))),
                    None => {
                        let t = CreditTransaction {
                            id: new_uuid(),
                            user_id: user.id.clone(),
                            amount: WELCOME_CREDITS,
                            balance_after: WELCOME_CREDITS,
                            transaction_type: TransactionKind::Welcome,
                            description: String::from_str(
                                "Welcome bonus - Try your first video for free!",
                            ),
                            video_id: None,
                            revenuecat_transaction_id: None,
                            metadata: None,
                            created_at: now_ms,
                        };
                        let ghost pre = *self;
                        let ghost nu = user;
                        let ghost t_spec = t;
                        self.users.push(user.clone());
                        self.transactions.push(t);
                        proof {
                            lemma_created_user_wf(pre, *self, nu, t_spec);
                        }
                        Ok((user, true))
                    },
                }
            },
        }
    }
}

/// Well-formedness carries over the creation of an account together with its
/// welcome transaction.
proof fn lemma_created_user_wf(pre: Store, post: Store, nu: User, t: CreditTransaction)
    requires
        pre.wf(),
        !pre.spec_has_user(nu.id@),
        !pre.spec_has_apple_user(nu.apple_user_id@),
        t.user_id@ == nu.id@,
        t.transaction_type == TransactionKind::Welcome,
        nu.credits_balance == t.amount,
        nu.credits_balance >= 0,
        nu.total_videos_generated == 0,
        post.users@ == pre.users@.push(nu),
        post.transactions@ == pre.transactions@.push(t),
        post.locks@ == pre.locks@,
        post.webhook_events@ == pre.webhook_events@,
        post.videos@ == pre.videos@,
    ensures
        post.wf(),
        post.spec_balance(nu.id@) == nu.credits_balance,
{
    let uid = nu.id@;
    let n = pre.users@.len() as int;
    assert forall|i: int| 0 <= i < pre.users@.len() implies #[trigger] pre.users@[i].id@ != uid by {
        if pre.users@[i].id@ == uid {
            assert(pre.spec_has_user(uid));
        }
    }
    assert forall|i: int|
        0 <= i < pre.users@.len() implies #[trigger] pre.users@[i].apple_user_id@
        != nu.apple_user_id@ by {
        if pre.users@[i].apple_user_id@ == nu.apple_user_id@ {
            assert(pre.spec_has_apple_user(nu.apple_user_id@));
        }
    }
    assert forall|i: int|
        0 <= i < pre.transactions@.len() implies #[trigger] pre.transactions@[i].user_id@
        != uid by {
        assert(pre.spec_has_user(pre.transactions@[i].user_id@));
        if pre.transactions@[i].user_id@ == uid {
            assert(pre.spec_has_user(uid));
        }
    }
    lemma_ledger_sum_no_match(pre.transactions@, uid);
    assert forall|w: Seq<char>| #[trigger]
        ledger_sum(post.transactions@, w) == ledger_sum(pre.transactions@, w) + (
        if t.user_id@ == w {
            t.amount as int
        } else {
            0int
        }) by {
        lemma_ledger_sum_push(pre.transactions@, w, t);
    }
    assert forall|j: int| 0 <= j < post.users@.len() implies {
        &&& (#[trigger] post.users@[j]).credits_balance >= 0
        &&& post.users@[j].credits_balance == ledger_sum(post.transactions@, post.users@[j].id@)
        &&& post.users@[j].total_videos_generated >= 0
    } by {
        if j < n {
            assert(post.users@[j] == pre.users@[j]);
            assert(pre.users@[j].id@ != uid);
        } else {
            assert(post.users@[j] == nu);
        }
    }
    assert forall|i: int|
        0 <= i < post.transactions@.len() implies post.spec_has_user(
        (#[trigger] post.transactions@[i]).user_id@,
    ) by {
        if i < pre.transactions@.len() {
            assert(post.transactions@[i] == pre.transactions@[i]);
            assert(pre.spec_has_user(pre.transactions@[i].user_id@));
            let k = choose|k: int|
                0 <= k < pre.users@.len() && #[trigger] pre.users@[k].id@
                    == pre.transactions@[i].user_id@;
            assert(post.users@[k].id@ == pre.transactions@[i].user_id@);
        } else {
            assert(post.transactions@[i] == t);
            assert(post.users@[n].id@ == uid);
        }
    }
    assert forall|vid: Seq<char>| #[trigger] refund_count(post.transactions@, vid) <= 1 by {
        lemma_refund_count_push(pre.transactions@, vid, t);
    }
}

} // verus!
