//! The persistent state the service coordinates through: accounts, the
//! append-only transaction ledger, the per-account generation locks, the
//! notification records and the video jobs — together with the invariants
//! that every operation of the library preserves.

use vstd::prelude::*;
use crate::models::{CreditTransaction, GenerationLock, NotificationKind, NotificationRecord,
    TransactionKind, User, Video};
use crate::strutil::str_eq;

verus! {

/// The whole persistent state.
pub struct Store {
    pub users: Vec<User>,
    pub transactions: Vec<CreditTransaction>,
    pub locks: Vec<GenerationLock>,
    pub webhook_events: Vec<NotificationRecord>,
    pub videos: Vec<Video>,
}

/// The view of an optional string.
pub open spec fn opt_str_view(o: Option<String>) -> Option<Seq<char>> {
    match o {
        Some(s) => Some(s@),
        None => None,
    }
}

/// The sum of the amounts of the transactions belonging to account `uid`.
pub open spec fn ledger_sum(txns: Seq<CreditTransaction>, uid: Seq<char>) -> int
    decreases txns.len(),
{
    if txns.len() == 0 {
        0
    } else {
        ledger_sum(txns.drop_last(), uid) + if txns.last().user_id@ == uid {
            txns.last().amount as int
        } else {
            0int
        }
    }
}

/// Whether `t` is a refund transaction referencing job `vid`.
pub open spec fn is_refund_for(t: CreditTransaction, vid: Seq<char>) -> bool {
    t.transaction_type == TransactionKind::Refund && opt_str_view(t.video_id) == Some(vid)
}

/// How many refund transactions reference job `vid`.
pub open spec fn refund_count(txns: Seq<CreditTransaction>, vid: Seq<char>) -> int
    decreases txns.len(),
{
    if txns.len() == 0 {
        0
    } else {
        refund_count(txns.drop_last(), vid) + if is_refund_for(txns.last(), vid) {
            1int
        } else {
            0int
        }
    }
}

pub proof fn lemma_ledger_sum_push(txns: Seq<CreditTransaction>, uid: Seq<char>, t: CreditTransaction)
    ensures
        ledger_sum(txns.push(t), uid) == ledger_sum(txns, uid) + if t.user_id@ == uid {
            t.amount as int
        } else {
            0int
        },
{
    assert(txns.push(t).drop_last() =~= txns);
}

pub proof fn lemma_ledger_sum_no_match(txns: Seq<CreditTransaction>, uid: Seq<char>)
    requires
        forall|i: int| 0 <= i < txns.len() ==> #[trigger] txns[i].user_id@ != uid,
    ensures
        ledger_sum(txns, uid) == 0,
    decreases txns.len(),
{
    if txns.len() > 0 {
        assert(forall|i: int|
            0 <= i < txns.drop_last().len() ==> #[trigger] txns.drop_last()[i].user_id@ != uid);
        lemma_ledger_sum_no_match(txns.drop_last(), uid);
    }
}

pub proof fn lemma_refund_count_push(txns: Seq<CreditTransaction>, vid: Seq<char>, t: CreditTransaction)
    ensures
        refund_count(txns.push(t), vid) == refund_count(txns, vid) + if is_refund_for(t, vid) {
            1int
        } else {
            0int
        },
{
    assert(txns.push(t).drop_last() =~= txns);
}

pub proof fn lemma_refund_count_zero(txns: Seq<CreditTransaction>, vid: Seq<char>)
    requires
        forall|i: int| 0 <= i < txns.len() ==> !is_refund_for(#[trigger] txns[i], vid),
    ensures
        refund_count(txns, vid) == 0,
    decreases txns.len(),
{
    if txns.len() > 0 {
        assert(forall|i: int|
            0 <= i < txns.drop_last().len() ==> !is_refund_for(#[trigger] txns.drop_last()[i], vid));
        lemma_refund_count_zero(txns.drop_last(), vid);
    }
}

pub proof fn lemma_refund_count_nonneg(txns: Seq<CreditTransaction>, vid: Seq<char>)
    ensures
        refund_count(txns, vid) >= 0,
    decreases txns.len(),
{
    if txns.len() > 0 {
        lemma_refund_count_nonneg(txns.drop_last(), vid);
    }
}

pub proof fn lemma_refund_count_pos(txns: Seq<CreditTransaction>, vid: Seq<char>, i: int)
    requires
        0 <= i < txns.len(),
        is_refund_for(txns[i], vid),
    ensures
        refund_count(txns, vid) >= 1,
    decreases txns.len(),
{
    if i == txns.len() - 1 {
        lemma_refund_count_nonneg(txns.drop_last(), vid);
    } else {
        assert(txns.drop_last()[i] == txns[i]);
        lemma_refund_count_pos(txns.drop_last(), vid, i);
    }
}

impl Store {
    /// Whether an account with this id exists.
    pub open spec fn spec_has_user(self, uid: Seq<char>) -> bool {
        exists|i: int| 0 <= i < self.users@.len() && #[trigger] self.users@[i].id@ == uid
    }

    /// Whether an account with this external (sign-in) id exists.
    pub open spec fn spec_has_apple_user(self, aid: Seq<char>) -> bool {
        exists|i: int| 0 <= i < self.users@.len() && #[trigger] self.users@[i].apple_user_id@ == aid
    }

    /// The index of the account with this id.
    pub open spec fn spec_user_index(self, uid: Seq<char>) -> int {
        choose|i: int| 0 <= i < self.users@.len() && #[trigger] self.users@[i].id@ == uid
    }

    /// The account row with this id.
    pub open spec fn spec_user(self, uid: Seq<char>) -> User {
        self.users@[self.spec_user_index(uid)]
    }

    /// The balance of an account, as the ledger gives it: the sum of all its
    /// transaction amounts.
    pub open spec fn spec_balance(self, uid: Seq<char>) -> int {
        ledger_sum(self.transactions@, uid)
    }

    /// Whether a generation lock row exists for the account: the row's
    /// existence is the locked state.
    pub open spec fn spec_locked(self, uid: Seq<char>) -> bool {
        exists|i: int| 0 <= i < self.locks@.len() && #[trigger] self.locks@[i].user_id@ == uid
    }

    /// Whether a notification record exists for this job and kind.
    pub open spec fn spec_event_exists(self, vid: Seq<char>, kind: NotificationKind) -> bool {
        exists|i: int|
            0 <= i < self.webhook_events@.len() && #[trigger] self.webhook_events@[i].openai_video_id@
                == vid && self.webhook_events@[i].event_kind == kind
    }

    /// Whether a notification record for this job and kind exists and is
    /// marked processed.
    pub open spec fn spec_event_processed(self, vid: Seq<char>, kind: NotificationKind) -> bool {
        exists|i: int|
            0 <= i < self.webhook_events@.len() && #[trigger] self.webhook_events@[i].openai_video_id@
                == vid && self.webhook_events@[i].event_kind == kind
                && self.webhook_events@[i].processed
    }

    /// Whether a video row with this provider job id exists.
    pub open spec fn spec_has_video_openai(self, vid: Seq<char>) -> bool {
        exists|i: int|
            0 <= i < self.videos@.len() && #[trigger] self.videos@[i].openai_video_id@ == vid
    }

    /// The index of the video row with this provider job id.
    pub open spec fn spec_video_openai_index(self, vid: Seq<char>) -> int {
        choose|i: int|
            0 <= i < self.videos@.len() && #[trigger] self.videos@[i].openai_video_id@ == vid
    }

    /// The video row with this provider job id.
    pub open spec fn spec_video_by_openai(self, vid: Seq<char>) -> Video {
        self.videos@[self.spec_video_openai_index(vid)]
    }

    /// Whether a video row with this id exists.
    pub open spec fn spec_has_video(self, id: Seq<char>) -> bool {
        exists|i: int| 0 <= i < self.videos@.len() && #[trigger] self.videos@[i].id@ == id
    }

    /// Whether a purchase with this payment reference was already recorded.
    pub open spec fn spec_payment_ref_exists(self, pref: Seq<char>) -> bool {
        exists|i: int|
            0 <= i < self.transactions@.len() && #[trigger] opt_str_view(
                self.transactions@[i].revenuecat_transaction_id,
            ) == Some(pref)
    }

    /// Account rows are unique by id and by external sign-in id.
    pub open spec fn users_unique(self) -> bool {
        &&& forall|i: int, j: int|
            0 <= i < j < self.users@.len() ==> #[trigger] self.users@[i].id@ != #[trigger] self.users@[j].id@
        &&& forall|i: int, j: int|
            0 <= i < j < self.users@.len() ==> #[trigger] self.users@[i].apple_user_id@
                != #[trigger] self.users@[j].apple_user_id@
    }

    /// Every balance is non-negative and equals the sum of the account's
    /// transaction amounts, and the generation counter is non-negative.
    pub open spec fn balances_match_ledger(self) -> bool {
        forall|i: int|
            0 <= i < self.users@.len() ==> {
                &&& (#[trigger] self.users@[i]).credits_balance >= 0
                &&& self.users@[i].credits_balance == ledger_sum(
                    self.transactions@,
                    self.users@[i].id@,
                )
                &&& self.users@[i].total_videos_generated >= 0
            }
    }

    /// Every transaction belongs to an existing account.
    pub open spec fn txns_have_users(self) -> bool {
        forall|i: int|
            0 <= i < self.transactions@.len() ==> self.spec_has_user(
                (#[trigger] self.transactions@[i]).user_id@,
            )
    }

    /// At most one lock row per account.
    pub open spec fn locks_unique(self) -> bool {
        forall|i: int, j: int|
            0 <= i < j < self.locks@.len() ==> #[trigger] self.locks@[i].user_id@
                != #[trigger] self.locks@[j].user_id@
    }

    /// For each job id, at most one refund transaction ever exists.
    pub open spec fn refunds_unique(self) -> bool {
        forall|vid: Seq<char>| #[trigger] refund_count(self.transactions@, vid) <= 1
    }

    /// At most one notification record per (job id, event kind) pair.
    pub open spec fn events_unique(self) -> bool {
        forall|i: int, j: int|
            0 <= i < j < self.webhook_events@.len() ==> !((#[trigger] self.webhook_events@[i]).openai_video_id@
                == (#[trigger] self.webhook_events@[j]).openai_video_id@
                && self.webhook_events@[i].event_kind == self.webhook_events@[j].event_kind)
    }

    /// Video rows are unique by id and by provider job id, and each records a
    /// positive cost.
    pub open spec fn videos_wf(self) -> bool {
        &&& forall|i: int, j: int|
            0 <= i < j < self.videos@.len() ==> #[trigger] self.videos@[i].id@
                != #[trigger] self.videos@[j].id@
        &&& forall|i: int, j: int|
            0 <= i < j < self.videos@.len() ==> #[trigger] self.videos@[i].openai_video_id@
                != #[trigger] self.videos@[j].openai_video_id@
        &&& forall|i: int| 0 <= i < self.videos@.len() ==> (#[trigger] self.videos@[i]).credits_cost > 0
    }

    /// The store's well-formedness: what every operation of the library
    /// requires and preserves.
    pub open spec fn wf(self) -> bool {
        &&& self.users_unique()
        &&& self.balances_match_ledger()
        &&& self.txns_have_users()
        &&& self.locks_unique()
        &&& self.refunds_unique()
        &&& self.events_unique()
        &&& self.videos_wf()
    }

    /// An empty store.
    pub fn new() -> (r: Store)
        ensures
            r.wf(),
            r.users@.len() == 0,
            r.transactions@.len() == 0,
            r.locks@.len() == 0,
            r.webhook_events@.len() == 0,
            r.videos@.len() == 0,
    {
        let s = Store {
            users: Vec::new(),
            transactions: Vec::new(),
            locks: Vec::new(),
            webhook_events: Vec::new(),
            videos: Vec::new(),
        };
        proof {
            assert forall|vid: Seq<char>| #[trigger] refund_count(s.transactions@, vid) <= 1 by {
                assert(refund_count(s.transactions@, vid) == 0);
            }
        }
        s
    }

    /// Looks up the account row with this id.
    pub(crate) fn find_user(&self, user_id: &str) -> (r: Option<usize>)
        ensures
            match r {
                Some(i) => i < self.users@.len() && self.users@[i as int].id@ == user_id@,
                None => !self.spec_has_user(user_id@),
            },
    {
        let n = self.users.len();
        let mut k: usize = 0;
        while k < n
            invariant
                n == self.users@.len(),
                k <= n,
                forall|j: int| 0 <= j < k ==> #[trigger] self.users@[j].id@ != user_id@,
            decreases n - k,
        {
            if str_eq(self.users[k].id.as_str(), user_id) {
                return Some(k);
            }
            k = k + 1;
        }
        None
    }

    /// Looks up the account row with this external sign-in id.
    pub(crate) fn find_user_by_apple(&self, apple_user_id: &str) -> (r: Option<usize>)
        ensures
            match r {
                Some(i) => i < self.users@.len() && self.users@[i as int].apple_user_id@
                    == apple_user_id@,
                None => !self.spec_has_apple_user(apple_user_id@),
            },
    {
        let n = self.users.len();
        let mut k: usize = 0;
        while k < n
            invariant
                n == self.users@.len(),
                k <= n,
                forall|j: int| 0 <= j < k ==> #[trigger] self.users@[j].apple_user_id@ != apple_user_id@,
            decreases n - k,
        {
            if str_eq(self.users[k].apple_user_id.as_str(), apple_user_id) {
                return Some(k);
            }
            k = k + 1;
        }
        None
    }

    /// Looks up the lock row for this account.
    pub(crate) fn find_lock(&self, user_id: &str) -> (r: Option<usize>)
        ensures
            match r {
                Some(i) => i < self.locks@.len() && self.locks@[i as int].user_id@ == user_id@,
                None => !self.spec_locked(user_id@),
            },
    {
        let n = self.locks.len();
        let mut k: usize = 0;
        while k < n
            invariant
                n == self.locks@.len(),
                k <= n,
                forall|j: int| 0 <= j < k ==> #[trigger] self.locks@[j].user_id@ != user_id@,
            decreases n - k,
        {
            if str_eq(self.locks[k].user_id.as_str(), user_id) {
                return Some(k);
            }
            k = k + 1;
        }
        None
    }

    /// Looks up a refund transaction referencing this job.
    pub(crate) fn find_refund(&self, video_id: &str) -> (r: Option<usize>)
        ensures
            match r {
                Some(i) => i < self.transactions@.len() && is_refund_for(
                    self.transactions@[i as int],
                    video_id@,
                ),
                None => refund_count(self.transactions@, video_id@) == 0,
            },
    {
        let n = self.transactions.len();
        let mut k: usize = 0;
        while k < n
            invariant
                n == self.transactions@.len(),
                k <= n,
                forall|j: int| 0 <= j < k ==> !is_refund_for(#[trigger] self.transactions@[j], video_id@),
            decreases n - k,
        {
            let t = &self.transactions[k];
            let is_refund = match t.transaction_type {
                TransactionKind::Refund => true,
                _ => false,
            };
            if is_refund {
                match &t.video_id {
                    Some(v) => {
                        if str_eq(v.as_str(), video_id) {
                            return Some(k);
                        }
                    },
                    None => {},
                }
            }
            k = k + 1;
        }
        proof {
            lemma_refund_count_zero(self.transactions@, video_id@);
        }
        None
    }

    /// Looks up a transaction carrying this payment reference.
    pub(crate) fn find_payment_ref(&self, pref: &str) -> (r: Option<usize>)
        ensures
            match r {
                Some(i) => i < self.transactions@.len() && opt_str_view(
                    self.transactions@[i as int].revenuecat_transaction_id,
                ) == Some(pref@),
                None => !self.spec_payment_ref_exists(pref@),
            },
    {
        let n = self.transactions.len();
        let mut k: usize = 0;
        while k < n
            invariant
                n == self.transactions@.len(),
                k <= n,
                forall|j: int|
                    0 <= j < k ==> #[trigger] opt_str_view(
                        self.transactions@[j].revenuecat_transaction_id,
                    ) != Some(pref@),
            decreases n - k,
        {
            match &self.transactions[k].revenuecat_transaction_id {
                Some(p) => {
                    if str_eq(p.as_str(), pref) {
                        return Some(k);
                    }
                },
                None => {},
            }
            k = k + 1;
        }
        None
    }

    /// Looks up the notification record for this job and kind.
    pub(crate) fn find_event(&self, openai_video_id: &str, kind: NotificationKind) -> (r: Option<
        usize,
    >)
        ensures
            match r {
                Some(i) => i < self.webhook_events@.len() && self.webhook_events@[i as int].openai_video_id@
                    == openai_video_id@ && self.webhook_events@[i as int].event_kind == kind,
                None => !self.spec_event_exists(openai_video_id@, kind),
            },
    {
        let n = self.webhook_events.len();
        let mut k: usize = 0;
        while k < n
            invariant
                n == self.webhook_events@.len(),
                k <= n,
                forall|j: int|
                    0 <= j < k ==> !((#[trigger] self.webhook_events@[j]).openai_video_id@
                        == openai_video_id@ && self.webhook_events@[j].event_kind == kind),
            decreases n - k,
        {
            let e = &self.webhook_events[k];
            let same_kind = match (e.event_kind, kind) {
                (NotificationKind::Completed, NotificationKind::Completed) => true,
                (NotificationKind::Failed, NotificationKind::Failed) => true,
                _ => false,
            };
            if same_kind && str_eq(e.openai_video_id.as_str(), openai_video_id) {
                return Some(k);
            }
            k = k + 1;
        }
        None
    }

    /// Looks up the video row with this id.
    pub(crate) fn find_video(&self, video_id: &str) -> (r: Option<usize>)
        ensures
            match r {
                Some(i) => i < self.videos@.len() && self.videos@[i as int].id@ == video_id@,
                None => !self.spec_has_video(video_id@),
            },
    {
        let n = self.videos.len();
        let mut k: usize = 0;
        while k < n
            invariant
                n == self.videos@.len(),
                k <= n,
                forall|j: int| 0 <= j < k ==> #[trigger] self.videos@[j].id@ != video_id@,
            decreases n - k,
        {
            if str_eq(self.videos[k].id.as_str(), video_id) {
                return Some(k);
            }
            k = k + 1;
        }
        None
    }

    /// Looks up the video row with this provider job id.
    pub(crate) fn find_video_by_openai(&self, openai_video_id: &str) -> (r: Option<usize>)
        ensures
            match r {
                Some(i) => i < self.videos@.len() && self.videos@[i as int].openai_video_id@
                    == openai_video_id@,
                None => !self.spec_has_video_openai(openai_video_id@),
            },
    {
        let n = self.videos.len();
        let mut k: usize = 0;
        while k < n
            invariant
                n == self.videos@.len(),
                k <= n,
                forall|j: int| 0 <= j < k ==> #[trigger] self.videos@[j].openai_video_id@ != openai_video_id@,
            decreases n - k,
        {
            if str_eq(self.videos[k].openai_video_id.as_str(), openai_video_id) {
                return Some(k);
            }
            k = k + 1;
        }
        None
    }
}

/// Two stores with the same contents.
pub open spec fn same_store(a: Store, b: Store) -> bool {
    &&& a.users@ == b.users@
    &&& a.transactions@ == b.transactions@
    &&& a.locks@ == b.locks@
    &&& a.webhook_events@ == b.webhook_events@
    &&& a.videos@ == b.videos@
}

/// Pins the index of an account row down to the one the `choose` in
/// `spec_user_index` picks.
pub proof fn lemma_user_index(s: Store, i: int, uid: Seq<char>)
    requires
        s.users_unique(),
        0 <= i < s.users@.len(),
        s.users@[i].id@ == uid,
    ensures
        s.spec_has_user(uid),
        s.spec_user_index(uid) == i,
        s.spec_user(uid) == s.users@[i],
{
    assert(s.spec_has_user(uid));
    let k = s.spec_user_index(uid);
    assert(0 <= k < s.users@.len() && s.users@[k].id@ == uid);
    if k != i {
        if k < i {
            assert(s.users@[k].id@ != s.users@[i].id@);
        } else {
            assert(s.users@[i].id@ != s.users@[k].id@);
        }
    }
}

/// Pins the index of a video row down to the one the `choose` in
/// `spec_video_openai_index` picks.
pub proof fn lemma_video_openai_index(s: Store, i: int, vid: Seq<char>)
    requires
        s.videos_wf(),
        0 <= i < s.videos@.len(),
        s.videos@[i].openai_video_id@ == vid,
    ensures
        s.spec_has_video_openai(vid),
        s.spec_video_openai_index(vid) == i,
        s.spec_video_by_openai(vid) == s.videos@[i],
{
    assert(s.spec_has_video_openai(vid));
    let k = s.spec_video_openai_index(vid);
    assert(0 <= k < s.videos@.len() && s.videos@[k].openai_video_id@ == vid);
    if k != i {
        if k < i {
            assert(s.videos@[k].openai_video_id@ != s.videos@[i].openai_video_id@);
        } else {
            assert(s.videos@[i].openai_video_id@ != s.videos@[k].openai_video_id@);
        }
    }
}

} // verus!
