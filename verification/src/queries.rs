//! Read-side queries: an account's video history and transaction history,
//! newest first, and the daily generation rate limit.

use vstd::prelude::*;
use vstd::string::StringExecFns;
use crate::errors::AppError;
use crate::models::{CreditTransaction, Video};
use crate::store::Store;
use crate::strutil::{dec_int, i64_to_string, str_eq};
use crate::time::{day_index, spec_day_index};

verus! {

/// The videos of account `uid`, in table order.
pub open spec fn filter_videos(videos: Seq<Video>, uid: Seq<char>) -> Seq<Video>
    decreases videos.len(),
{
    if videos.len() == 0 {
        Seq::empty()
    } else {
        let rest = filter_videos(videos.drop_last(), uid);
        if videos.last().user_id@ == uid {
            rest.push(videos.last())
        } else {
            rest
        }
    }
}

/// The transactions of account `uid`, in ledger order.
pub open spec fn filter_txns(txns: Seq<CreditTransaction>, uid: Seq<char>) -> Seq<CreditTransaction>
    decreases txns.len(),
{
    if txns.len() == 0 {
        Seq::empty()
    } else {
        let rest = filter_txns(txns.drop_last(), uid);
        if txns.last().user_id@ == uid {
            rest.push(txns.last())
        } else {
            rest
        }
    }
}

/// How many videos account `uid` created on UTC day `day`.
pub open spec fn count_videos_on_day(videos: Seq<Video>, uid: Seq<char>, day: int) -> int
    decreases videos.len(),
{
    if videos.len() == 0 {
        0
    } else {
        count_videos_on_day(videos.drop_last(), uid, day) + (
        if videos.last().user_id@ == uid && spec_day_index(videos.last().created_at) == day {
            1int
        } else {
            0int
        })
    }
}

/// The page `[offset, offset + limit)` of a listing, clipped to its length.
pub open spec fn page_of<T>(s: Seq<T>, offset: int, limit: int) -> Seq<T> {
    let start = if offset > s.len() {
        s.len() as int
    } else {
        offset
    };
    let end = if offset + limit > s.len() {
        s.len() as int
    } else {
        offset + limit
    };
    s.subrange(start, end)
}

impl Store {
    /// An account's videos, newest row first, one page at a time, together
    /// with the account's total count.
    pub fn list_user_videos(&self, user_id: &str, limit: usize, offset: usize) -> (r: (
        Vec<Video>,
        u64,
    ))
        ensures
            r.0@ == page_of(
                filter_videos(self.videos@, user_id@).reverse(),
                offset as int,
                limit as int,
            ),
            r.1 == filter_videos(self.videos@, user_id@).len(),
    {
        let n = self.videos.len();
        let mut matches: Vec<Video> = Vec::new();
        let mut k: usize = 0;
        while k < n
            invariant
                n == self.videos@.len(),
                k <= n,
                matches@ == filter_videos(self.videos@.take(k as int), user_id@),
            decreases n - k,
        {
            proof {
                assert(self.videos@.take(k as int + 1).drop_last() =~= self.videos@.take(
                    k as int,
                ));
                assert(self.videos@.take(k as int + 1).last() == self.videos@[k as int]);
            }
            if str_eq(self.videos[k].user_id.as_str(), user_id) {
                matches.push(self.videos[k].clone());
            }
            k = k + 1;
        }
        proof {
            assert(self.videos@.take(n as int) =~= self.videos@);
        }
        let total: u64 = matches.len() as u64;
        let m = matches.len();
        let mut rev: Vec<Video> = Vec::new();
        let mut j: usize = m;
        while j > 0
            invariant
                m == matches@.len(),
                j <= m,
                rev@.len() == m - j,
                forall|i: int| 0 <= i < rev@.len() ==> #[trigger] rev@[i] == matches@[m - 1 - i],
            decreases j,
        {
            j = j - 1;
            rev.push(matches[j].clone());
        }
        proof {
            assert(rev@ =~= matches@.reverse());
        }
        let start = if offset > m {
            m
        } else {
            offset
        };
        let rem = m - start;
        let cnt = if limit > rem {
            rem
        } else {
            limit
        };
        let rlen = rev.len();
        let mut page: Vec<Video> = Vec::new();
        let mut p: usize = 0;
        while p < cnt
            invariant
                rlen == rev@.len(),
                start + cnt <= rlen,
                p <= cnt,
                page@.len() == p,
                forall|i: int| 0 <= i < p ==> #[trigger] page@[i] == rev@[start + i],
            decreases cnt - p,
        {
            page.push(rev[start + p].clone());
            p = p + 1;
        }
        proof {
            assert(page@ =~= page_of(rev@, offset as int, limit as int));
        }
        (page, total)
    }

    /// An account's most recent transactions, newest row first, up to
    /// `limit` of them.
    pub fn get_user_transactions(&self, user_id: &str, limit: usize) -> (r: Vec<CreditTransaction>)
        ensures
            r@ == page_of(filter_txns(self.transactions@, user_id@).reverse(), 0, limit as int),
    {
        let n = self.transactions.len();
        let mut matches: Vec<CreditTransaction> = Vec::new();
        let mut k: usize = 0;
        while k < n
            invariant
                n == self.transactions@.len(),
                k <= n,
                matches@ == filter_txns(self.transactions@.take(k as int), user_id@),
            decreases n - k,
        {
            proof {
                assert(self.transactions@.take(k as int + 1).drop_last() =~= self.transactions@.take(
                    k as int,
                ));
                assert(self.transactions@.take(k as int + 1).last()
                    == self.transactions@[k as int]);
            }
            if str_eq(self.transactions[k].user_id.as_str(), user_id) {
                matches.push(self.transactions[k].clone());
            }
            k = k + 1;
        }
        proof {
            assert(self.transactions@.take(n as int) =~= self.transactions@);
        }
        let m = matches.len();
        let cnt = if limit > m {
            m
        } else {
            limit
        };
        let mut page: Vec<CreditTransaction> = Vec::new();
        let mut p: usize = 0;
        while p < cnt
            invariant
                m == matches@.len(),
                cnt <= m,
                p <= cnt,
                page@.len() == p,
                forall|i: int| 0 <= i < p ==> #[trigger] page@[i] == matches@[m - 1 - i],
            decreases cnt - p,
        {
            page.push(matches[m - 1 - p].clone());
            p = p + 1;
        }
        proof {
            assert(page@ =~= page_of(matches@.reverse(), 0, limit as int));
        }
        page
    }

    /// How many videos the account created on the UTC day of `now_ms`.
    pub fn count_videos_today(&self, user_id: &str, now_ms: u64) -> (r: u64)
        ensures
            r == count_videos_on_day(self.videos@, user_id@, spec_day_index(now_ms)),
            r <= self.videos@.len(),
    {
        let day = day_index(now_ms);
        let n = self.videos.len();
        let mut count: u64 = 0;
        let mut k: usize = 0;
        while k < n
            invariant
                n == self.videos@.len(),
                day == spec_day_index(now_ms),
                k <= n,
                count == count_videos_on_day(
                    self.videos@.take(k as int),
                    user_id@,
                    spec_day_index(now_ms),
                ),
                count <= k,
            decreases n - k,
        {
            proof {
                assert(self.videos@.take(k as int + 1).drop_last() =~= self.videos@.take(
                    k as int,
                ));
                assert(self.videos@.take(k as int + 1).last() == self.videos@[k as int]);
            }
            let v = &self.videos[k];
            if str_eq(v.user_id.as_str(), user_id) && day_index(v.created_at) == day {
                count = count + 1;
            }
            k = k + 1;
        }
        proof {
            assert(self.videos@.take(n as int) =~= self.videos@);
        }
        count
    }
}

/// Allows a generation when the account is under its daily allowance;
/// otherwise rejects it with the exact message the service reports.
pub fn check_rate_limit(store: &Store, user_id: &str, now_ms: u64, max_per_day: i64) -> (r: Result<
    (),
    AppError,
>)
    requires
        max_per_day >= 0,
    ensures
        match r {
            Ok(()) => count_videos_on_day(store.videos@, user_id@, spec_day_index(now_ms))
                < max_per_day,
            Err(e) => {
                &&& count_videos_on_day(store.videos@, user_id@, spec_day_index(now_ms))
                    >= max_per_day
                &&& e matches AppError::RateLimitExceeded(m) && m@ == "Daily limit of "@ + dec_int(
                    max_per_day as int,
                ) + " videos reached. Limit resets at midnight UTC."@
            },
        },
{
    let count = store.count_videos_today(user_id, now_ms);
    if count >= (max_per_day as u64) {
        let msg = String::from_str("Daily limit of ").concat(
            i64_to_string(max_per_day).as_str(),
        ).concat(" videos reached. Limit resets at midnight UTC.");
        Err(AppError::RateLimitExceeded(msg))
    } else {
        Ok(())
    }
}

/// The account's use of today's allowance: how many videos it created on the
/// UTC day of `now_ms`, and the allowance itself.
pub fn get_rate_limit_status(store: &Store, user_id: &str, now_ms: u64, max_per_day: i64) -> (r: (
    u64,
    i64,
))
    ensures
        r.0 == count_videos_on_day(store.videos@, user_id@, spec_day_index(now_ms)),
        r.1 == max_per_day,
{
    let count = store.count_videos_today(user_id, now_ms);
    (count, max_per_day)
}

} // verus!
