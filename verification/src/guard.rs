//! The notification idempotency guard: terminal events the provider pushes
//! — and may push again, in any order — are deduplicated on (job id, event
//! kind), and their side effects are applied at most once. A crash after
//! recording an event but before marking it processed makes redelivery
//! reprocess it, which is safe because the transition itself is idempotent.

use vstd::prelude::*;
use crate::credits::refund_credits;
use crate::errors::AppError;
use crate::ids::new_uuid;
use crate::ledger::{txn_matches, users_balance_updated};
use crate::models::{NotificationKind, NotificationRecord, TransactionKind, VideoStatus};
use crate::store::{
    lemma_video_openai_index, refund_count, same_store, Store,
};
use crate::urls::{build_proxy_url, spec_proxy_url};
use crate::videos::videos_updated_except;

verus! {

/// How a delivery was answered: applied for the first effective delivery of
/// a (job, kind) pair, duplicate for every later one. Both are success to
/// the sender, so redelivery stops either way.
#[derive(Debug, Clone, Copy, PartialEq, Eq, Structural)]
pub enum NotificationOutcome {
    Applied,
    Duplicate,
}

impl Store {
    /// Whether this delivery is a duplicate: a record for the pair exists
    /// and its side effects are already done.
    pub fn is_duplicate_webhook(&self, openai_video_id: &str, kind: NotificationKind) -> (r: bool)
        requires
            self.wf(),
        ensures
            r == self.spec_event_processed(openai_video_id@, kind),
    {
        match self.find_event(openai_video_id, kind) {
            Some(i) => {
                let p = self.webhook_events[i].processed;
                proof {
                    if !p && self.spec_event_processed(openai_video_id@, kind) {
                        let j = choose|j: int|
                            0 <= j < self.webhook_events@.len()
                                && (#[trigger] self.webhook_events@[j]).openai_video_id@
                                == openai_video_id@ && self.webhook_events@[j].event_kind == kind
                                && self.webhook_events@[j].processed;
                        assert(j != i);
                        if j < i as int {
                            assert(!(self.webhook_events@[j].openai_video_id@
                                == self.webhook_events@[i as int].openai_video_id@
                                && self.webhook_events@[j].event_kind
                                == self.webhook_events@[i as int].event_kind));
                        } else {
                            assert(!(self.webhook_events@[i as int].openai_video_id@
                                == self.webhook_events@[j].openai_video_id@
                                && self.webhook_events@[i as int].event_kind
                                == self.webhook_events@[j].event_kind));
                        }
                    }
                }
                p
            },
            None => false,
        }
    }

    /// Creates the notification record for the pair on first sight, still
    /// unprocessed; locates it when one exists already.
    pub fn store_webhook_event(&mut self, openai_video_id: &str, kind: NotificationKind, now_ms: u64)
        -> (r: Result<(), AppError>)
        requires
            old(self).wf(),
        ensures
            final(self).wf(),
            r is Ok,
            final(self).users@ == old(self).users@,
            final(self).transactions@ == old(self).transactions@,
            final(self).locks@ == old(self).locks@,
            final(self).videos@ == old(self).videos@,
            final(self).spec_event_exists(openai_video_id@, kind),
            old(self).spec_event_exists(openai_video_id@, kind) ==> final(self).webhook_events@
                == old(self).webhook_events@,
            !old(self).spec_event_exists(openai_video_id@, kind) ==> {
                &&& final(self).webhook_events@.len() == old(self).webhook_events@.len() + 1
                &&& final(self).webhook_events@.drop_last() == old(self).webhook_events@
                &&& final(self).webhook_events@.last().openai_video_id@ == openai_video_id@
                &&& final(self).webhook_events@.last().event_kind == kind
                &&& final(self).webhook_events@.last().created_at == now_ms
                &&& !final(self).webhook_events@.last().processed
            },
            final(self).spec_event_processed(openai_video_id@, kind) == old(
                self,
            ).spec_event_processed(openai_video_id@, kind),
    {
        match self.find_event(openai_video_id, kind) {
            Some(_) => Ok(()),
            None => {
                let rec = NotificationRecord {
                    id: new_uuid(),
                    openai_video_id: String::from_str(openai_video_id),
                    event_kind: kind,
                    created_at: now_ms,
                    processed: false,
                };
                let ghost n = self.webhook_events@.len() as int;
                self.webhook_events.push(rec);
                proof {
                    assert(self.webhook_events@.drop_last() =~= old(self).webhook_events@);
                    assert(self.webhook_events@[n].openai_video_id@ == openai_video_id@);
                    assert forall|i: int, j: int|
                        0 <= i < j < self.webhook_events@.len() implies !((
                    #[trigger] self.webhook_events@[i]).openai_video_id@
                        == (#[trigger] self.webhook_events@[j]).openai_video_id@
                        && self.webhook_events@[i].event_kind
                        == self.webhook_events@[j].event_kind) by {
                        if j < n {
                            assert(self.webhook_events@[i] == old(self).webhook_events@[i]);
                            assert(self.webhook_events@[j] == old(self).webhook_events@[j]);
                        } else {
                            assert(self.webhook_events@[i] == old(self).webhook_events@[i]);
                            assert(!old(self).spec_event_exists(openai_video_id@, kind));
                        }
                    }
                    if self.spec_event_processed(openai_video_id@, kind) {
                        let j = choose|j: int|
                            0 <= j < self.webhook_events@.len()
                                && (#[trigger] self.webhook_events@[j]).openai_video_id@
                                == openai_video_id@ && self.webhook_events@[j].event_kind == kind
                                && self.webhook_events@[j].processed;
                        assert(j != n);
                        assert(self.webhook_events@[j] == old(self).webhook_events@[j]);
                        assert(old(self).spec_event_exists(openai_video_id@, kind));
                    }
                }
                Ok(())
            },
        }
    }

    /// Marks the pair's record processed: its side effects are done. A plain
    /// row update — a no-op when no record exists.
    pub fn mark_webhook_processed(&mut self, openai_video_id: &str, kind: NotificationKind) -> (r:
        Result<(), AppError>)
        requires
            old(self).wf(),
        ensures
            final(self).wf(),
            r is Ok,
            final(self).users@ == old(self).users@,
            final(self).transactions@ == old(self).transactions@,
            final(self).locks@ == old(self).locks@,
            final(self).videos@ == old(self).videos@,
            !old(self).spec_event_exists(openai_video_id@, kind) ==> final(self).webhook_events@
                == old(self).webhook_events@,
            old(self).spec_event_exists(openai_video_id@, kind) ==> {
                &&& final(self).spec_event_processed(openai_video_id@, kind)
                &&& final(self).webhook_events@.len() == old(self).webhook_events@.len()
                &&& forall|j: int|
                    0 <= j < old(self).webhook_events@.len() && !((#[trigger] old(
                        self,
                    ).webhook_events@[j]).openai_video_id@ == openai_video_id@ && old(
                        self,
                    ).webhook_events@[j].event_kind == kind) ==> final(self).webhook_events@[j]
                        == old(self).webhook_events@[j]
                &&& forall|j: int|
                    0 <= j < old(self).webhook_events@.len() && (#[trigger] old(
                        self,
                    ).webhook_events@[j]).openai_video_id@ == openai_video_id@ && old(
                        self,
                    ).webhook_events@[j].event_kind == kind ==> {
                        &&& final(self).webhook_events@[j].id == old(self).webhook_events@[j].id
                        &&& final(self).webhook_events@[j].openai_video_id == old(
                            self,
                        ).webhook_events@[j].openai_video_id
                        &&& final(self).webhook_events@[j].event_kind == kind
                        &&& final(self).webhook_events@[j].created_at == old(
                            self,
                        ).webhook_events@[j].created_at
                        &&& final(self).webhook_events@[j].processed
                    }
            },
    {
        match self.find_event(openai_video_id, kind) {
            Some(i) => {
                let e = &mut self.webhook_events[i];
                e.processed = true;
                proof {
                    assert(forall|j: int|
                        0 <= j < self.webhook_events@.len()
                            ==> (#[trigger] self.webhook_events@[j]).openai_video_id@ == old(
                            self,
                        ).webhook_events@[j].openai_video_id@ && self.webhook_events@[j].event_kind
                            == old(self).webhook_events@[j].event_kind);
                    assert(self.webhook_events@[i as int].processed);
                    assert(self.spec_event_processed(openai_video_id@, kind));
                    assert forall|j: int|
                        0 <= j < old(self).webhook_events@.len() && (#[trigger] old(
                            self,
                        ).webhook_events@[j]).openai_video_id@ == openai_video_id@ && old(
                            self,
                        ).webhook_events@[j].event_kind == kind implies j == i as int by {
                        if j != i as int {
                            if j < i as int {
                                assert(!(old(self).webhook_events@[j].openai_video_id@ == old(
                                    self,
                                ).webhook_events@[i as int].openai_video_id@ && old(
                                    self,
                                ).webhook_events@[j].event_kind == old(
                                    self,
                                ).webhook_events@[i as int].event_kind));
                            } else {
                                assert(!(old(self).webhook_events@[i as int].openai_video_id@
                                    == old(self).webhook_events@[j].openai_video_id@ && old(
                                    self,
                                ).webhook_events@[i as int].event_kind == old(
                                    self,
                                ).webhook_events@[j].event_kind));
                            }
                        }
                    }
                }
                Ok(())
            },
            None => Ok(()),
        }
    }
}

/// A record for the pair exists afterwards, processed as `done` says; every
/// other record is untouched. Holds only along paths that found no processed
/// record, so it also pins down how the record came to be: fresh (created
/// now, unprocessed before marking) or located unprocessed.
pub open spec fn event_recorded(
    pre: Store,
    post: Store,
    vid: Seq<char>,
    kind: NotificationKind,
    now_ms: u64,
    done: bool,
) -> bool {
    &&& !pre.spec_event_processed(vid, kind)
    &&& post.spec_event_exists(vid, kind)
    &&& if pre.spec_event_exists(vid, kind) {
        &&& post.webhook_events@.len() == pre.webhook_events@.len()
        &&& forall|j: int|
            0 <= j < pre.webhook_events@.len() && !((#[trigger] pre.webhook_events@[j]).openai_video_id@
                == vid && pre.webhook_events@[j].event_kind == kind) ==> post.webhook_events@[j]
                == pre.webhook_events@[j]
        &&& forall|j: int|
            0 <= j < pre.webhook_events@.len() && (#[trigger] pre.webhook_events@[j]).openai_video_id@
                == vid && pre.webhook_events@[j].event_kind == kind ==> {
                &&& post.webhook_events@[j].id == pre.webhook_events@[j].id
                &&& post.webhook_events@[j].openai_video_id == pre.webhook_events@[j].openai_video_id
                &&& post.webhook_events@[j].event_kind == kind
                &&& post.webhook_events@[j].created_at == pre.webhook_events@[j].created_at
                &&& post.webhook_events@[j].processed == done
            }
    } else {
        &&& post.webhook_events@.len() == pre.webhook_events@.len() + 1
        &&& post.webhook_events@.drop_last() == pre.webhook_events@
        &&& post.webhook_events@.last().openai_video_id@ == vid
        &&& post.webhook_events@.last().event_kind == kind
        &&& post.webhook_events@.last().created_at == now_ms
        &&& post.webhook_events@.last().processed == done
    }
    &&& done == post.spec_event_processed(vid, kind)
}

/// What one delivery of a terminal notification guarantees.
pub open spec fn notification_outcome(
    pre: Store,
    post: Store,
    vid: Seq<char>,
    kind: NotificationKind,
    base: Seq<char>,
    now_ms: u64,
    r: Result<NotificationOutcome, AppError>,
) -> bool {
    match r {
        Ok(NotificationOutcome::Duplicate) => {
            &&& pre.spec_event_processed(vid, kind)
            &&& same_store(pre, post)
        },
        Ok(NotificationOutcome::Applied) => {
            &&& !pre.spec_event_processed(vid, kind)
            &&& pre.spec_has_video_openai(vid)
            &&& event_recorded(pre, post, vid, kind, now_ms, true)
            &&& post.locks@ == pre.locks@
            &&& videos_updated_except(pre.videos@, post.videos@, vid)
            &&& match kind {
                NotificationKind::Completed => {
                    &&& post.transactions@ == pre.transactions@
                    &&& post.users@ == pre.users@
                    &&& forall|j: int|
                        0 <= j < pre.videos@.len() && (#[trigger] pre.videos@[j]).openai_video_id@
                            == vid ==> {
                            &&& post.videos@[j].status == VideoStatus::Completed
                            &&& post.videos@[j].progress == 100
                            &&& post.videos@[j].video_url matches Some(u) && u@ == spec_proxy_url(
                                base,
                                vid,
                                "video"@,
                                pre.videos@[j].user_id@,
                            )
                            &&& post.videos@[j].thumbnail_url matches Some(u) && u@
                                == spec_proxy_url(base, vid, "thumbnail"@, pre.videos@[j].user_id@)
                            &&& post.videos@[j].spritesheet_url matches Some(u) && u@
                                == spec_proxy_url(base, vid, "spritesheet"@, pre.videos@[j].user_id@)
                            &&& post.videos@[j].completed_at == Some(now_ms)
                        }
                },
                NotificationKind::Failed => {
                    &&& forall|j: int|
                        0 <= j < pre.videos@.len() && (#[trigger] pre.videos@[j]).openai_video_id@
                            == vid ==> {
                            &&& post.videos@[j].status == VideoStatus::Failed
                            &&& post.videos@[j].error_message matches Some(m) && m@
                                == "Video generation failed on OpenAI side"@
                            &&& post.videos@[j].failed_at == Some(now_ms)
                        }
                    &&& pre.spec_has_user(pre.spec_video_by_openai(vid).user_id@)
                    &&& refund_count(post.transactions@, pre.spec_video_by_openai(vid).id@) == 1
                    &&& post.spec_balance(pre.spec_video_by_openai(vid).user_id@)
                        == pre.spec_balance(pre.spec_video_by_openai(vid).user_id@) + (
                    if refund_count(pre.transactions@, pre.spec_video_by_openai(vid).id@) == 0 {
                        pre.spec_video_by_openai(vid).credits_cost as int
                    } else {
                        0int
                    })
                    &&& if refund_count(pre.transactions@, pre.spec_video_by_openai(vid).id@)
                        == 0 {
                        &&& post.transactions@.len() == pre.transactions@.len() + 1
                        &&& post.transactions@.drop_last() == pre.transactions@
                        &&& txn_matches(
                            post.transactions@.last(),
                            pre.spec_video_by_openai(vid).user_id@,
                            pre.spec_video_by_openai(vid).credits_cost as int,
                            pre.spec_balance(pre.spec_video_by_openai(vid).user_id@)
                                + pre.spec_video_by_openai(vid).credits_cost,
                            TransactionKind::Refund,
                            "Video generation failed - credits refunded"@,
                            Some(pre.spec_video_by_openai(vid).id@),
                            None,
                            now_ms,
                        )
                        &&& users_balance_updated(
                            pre.users@,
                            post.users@,
                            pre.spec_video_by_openai(vid).user_id@,
                            (pre.spec_balance(pre.spec_video_by_openai(vid).user_id@)
                                + pre.spec_video_by_openai(vid).credits_cost) as i64,
                            now_ms,
                            false,
                        )
                    } else {
                        post.transactions@ == pre.transactions@ && post.users@ == pre.users@
                    }
                },
            }
        },
        Err(e) => {
            &&& !pre.spec_event_processed(vid, kind)
            &&& event_recorded(pre, post, vid, kind, now_ms, false)
            &&& post.locks@ == pre.locks@
            &&& if !pre.spec_has_video_openai(vid) {
                &&& e matches AppError::NotFound(m) && m@ == "Video not found"@
                &&& post.users@ == pre.users@
                &&& post.transactions@ == pre.transactions@
                &&& post.videos@ == pre.videos@
            } else {
                &&& kind == NotificationKind::Failed
                &&& !pre.spec_has_user(pre.spec_video_by_openai(vid).user_id@)
                &&& e matches AppError::NotFound(m) && m@ == "User not found"@
                &&& post.users@ == pre.users@
                &&& post.transactions@ == pre.transactions@
                &&& videos_updated_except(pre.videos@, post.videos@, vid)
                &&& forall|j: int|
                    0 <= j < pre.videos@.len() && (#[trigger] pre.videos@[j]).openai_video_id@
                        == vid ==> post.videos@[j].status == VideoStatus::Failed
            }
        },
    }
}

/// Carries a video lookup across store states whose video tables are equal.
proof fn lemma_video_by_openai_same(a: Store, b: Store, vid: Seq<char>)
    requires
        a.videos_wf(),
        a.videos@ == b.videos@,
        a.spec_has_video_openai(vid),
    ensures
        b.spec_has_video_openai(vid),
        a.spec_video_by_openai(vid) == b.spec_video_by_openai(vid),
{
    let k = choose|k: int|
        0 <= k < a.videos@.len() && #[trigger] a.videos@[k].openai_video_id@ == vid;
    lemma_video_openai_index(a, k, vid);
    assert(b.videos@[k].openai_video_id@ == vid);
    lemma_video_openai_index(b, k, vid);
}

/// Applies one terminal notification, idempotently, per the guard's state
/// machine: unseen pairs are recorded, their transition applied — a
/// completion stores the proxy locations, a failure marks the job failed and
/// refunds its cost — and the record marked processed; already-processed
/// pairs are answered as duplicates with no side effects at all.
pub fn process_notification(
    store: &mut Store,
    openai_video_id: &str,
    kind: NotificationKind,
    service_url: &str,
    now_ms: u64,
) -> (r: Result<NotificationOutcome, AppError>)
    requires
        old(store).wf(),
        now_ms + 86_400_000 <= u64::MAX,
        kind == NotificationKind::Failed && old(store).spec_has_video_openai(openai_video_id@)
            ==> ({
            let v = old(store).spec_video_by_openai(openai_video_id@);
            refund_count(old(store).transactions@, v.id@) == 0 ==> old(store).spec_balance(
                v.user_id@,
            ) + v.credits_cost <= i64::MAX
        }),
    ensures
        final(store).wf(),
        notification_outcome(
            *old(store),
            *final(store),
            openai_video_id@,
            kind,
            service_url@,
            now_ms,
            r,
        ),
{
    if store.is_duplicate_webhook(openai_video_id, kind) {
        return Ok(NotificationOutcome::Duplicate);
    }
    match store.store_webhook_event(openai_video_id, kind, now_ms) {
        Ok(()) => {},
        Err(e) => {
            return Err(e);
        },
    }
    let ghost s1 = *store;
    let video = match store.get_video_by_openai_id(openai_video_id) {
        Ok(v) => v,
        Err(e) => {
            proof {
                assert(event_recorded(*old(store), s1, openai_video_id@, kind, now_ms, false));
            }
            return Err(e);
        },
    };
    proof {
        lemma_video_by_openai_same(s1, *old(store), openai_video_id@);
        assert(video == old(store).spec_video_by_openai(openai_video_id@));
    }
    match kind {
        NotificationKind::Completed => {
            let video_url = build_proxy_url(
                service_url,
                openai_video_id,
                "video",
                video.user_id.as_str(),
            );
            let thumbnail_url = build_proxy_url(
                service_url,
                openai_video_id,
                "thumbnail",
                video.user_id.as_str(),
            );
            let spritesheet_url = build_proxy_url(
                service_url,
                openai_video_id,
                "spritesheet",
                video.user_id.as_str(),
            );
            match store.update_video_completed(
                openai_video_id,
                video_url.as_str(),
                thumbnail_url.as_str(),
                spritesheet_url.as_str(),
                now_ms,
            ) {
                Ok(()) => {},
                Err(_) => {},
            }
            let ghost s2 = *store;
            proof {
                assert forall|j: int|
                    0 <= j < old(store).videos@.len() && (#[trigger] old(
                        store,
                    ).videos@[j]).openai_video_id@ == openai_video_id@ implies old(
                    store,
                ).videos@[j].user_id@ == video.user_id@ by {
                    let k = old(store).spec_video_openai_index(openai_video_id@);
                    lemma_video_openai_index(*old(store), j, openai_video_id@);
                }
            }
            match store.mark_webhook_processed(openai_video_id, kind) {
                Ok(()) => {},
                Err(_) => {},
            }
            proof {
                lemma_event_mark_composes(*old(store), s1, s2, *store, openai_video_id@, kind, now_ms);
            }
            Ok(NotificationOutcome::Applied)
        },
        NotificationKind::Failed => {
            match store.update_video_failed(
                openai_video_id,
                "Video generation failed on OpenAI side",
                now_ms,
            ) {
                Ok(()) => {},
                Err(_) => {},
            }
            let ghost s2 = *store;
            match refund_credits(
                store,
                video.user_id.as_str(),
                video.id.as_str(),
                video.credits_cost,
                now_ms,
            ) {
                Ok(_) => {},
                Err(e) => {
                    proof {
                        assert(same_store(s2, *store));
                        assert(event_recorded(
                            *old(store),
                            *store,
                            openai_video_id@,
                            kind,
                            now_ms,
                            false,
                        ));
                    }
                    return Err(e);
                },
            }
            let ghost s3 = *store;
            match store.mark_webhook_processed(openai_video_id, kind) {
                Ok(()) => {},
                Err(_) => {},
            }
            proof {
                lemma_event_mark_composes(*old(store), s1, s3, *store, openai_video_id@, kind, now_ms);
            }
            Ok(NotificationOutcome::Applied)
        },
    }
}

/// Composes the guard's steps on the event table: record (or locate) the
/// pair unprocessed, leave the table alone through the transition, then mark
/// it processed.
proof fn lemma_event_mark_composes(
    pre: Store,
    s1: Store,
    s2: Store,
    post: Store,
    vid: Seq<char>,
    kind: NotificationKind,
    now_ms: u64,
)
    requires
        pre.wf(),
        s2.wf(),
        !pre.spec_event_processed(vid, kind),
        s1.spec_event_exists(vid, kind),
        pre.spec_event_exists(vid, kind) ==> s1.webhook_events@ == pre.webhook_events@,
        !pre.spec_event_exists(vid, kind) ==> {
            &&& s1.webhook_events@.len() == pre.webhook_events@.len() + 1
            &&& s1.webhook_events@.drop_last() == pre.webhook_events@
            &&& s1.webhook_events@.last().openai_video_id@ == vid
            &&& s1.webhook_events@.last().event_kind == kind
            &&& s1.webhook_events@.last().created_at == now_ms
            &&& !s1.webhook_events@.last().processed
        },
        s2.webhook_events@ == s1.webhook_events@,
        s2.spec_event_exists(vid, kind) ==> {
            &&& post.spec_event_processed(vid, kind)
            &&& post.webhook_events@.len() == s2.webhook_events@.len()
            &&& forall|j: int|
                0 <= j < s2.webhook_events@.len() && !((#[trigger] s2.webhook_events@[j]).openai_video_id@
                    == vid && s2.webhook_events@[j].event_kind == kind)
                    ==> post.webhook_events@[j] == s2.webhook_events@[j]
            &&& forall|j: int|
                0 <= j < s2.webhook_events@.len() && (#[trigger] s2.webhook_events@[j]).openai_video_id@
                    == vid && s2.webhook_events@[j].event_kind == kind ==> {
                    &&& post.webhook_events@[j].id == s2.webhook_events@[j].id
                    &&& post.webhook_events@[j].openai_video_id
                        == s2.webhook_events@[j].openai_video_id
                    &&& post.webhook_events@[j].event_kind == kind
                    &&& post.webhook_events@[j].created_at == s2.webhook_events@[j].created_at
                    &&& post.webhook_events@[j].processed
                }
        },
    ensures
        event_recorded(pre, post, vid, kind, now_ms, true),
{
    assert(s2.spec_event_exists(vid, kind)) by {
        let k = choose|k: int|
            0 <= k < s1.webhook_events@.len() && (#[trigger] s1.webhook_events@[k]).openai_video_id@
                == vid && s1.webhook_events@[k].event_kind == kind;
        assert(s2.webhook_events@[k].openai_video_id@ == vid);
    }
    if pre.spec_event_exists(vid, kind) {
        assert(post.webhook_events@.len() == pre.webhook_events@.len());
        assert(post.spec_event_exists(vid, kind)) by {
            let k = choose|k: int|
                0 <= k < pre.webhook_events@.len()
                    && (#[trigger] pre.webhook_events@[k]).openai_video_id@ == vid
                    && pre.webhook_events@[k].event_kind == kind;
            assert(s2.webhook_events@[k].openai_video_id@ == vid);
            assert(post.webhook_events@[k].openai_video_id@ == vid);
        }
    } else {
        let n = pre.webhook_events@.len() as int;
        assert(s2.webhook_events@[n].openai_video_id@ == vid);
        assert(post.webhook_events@[n].openai_video_id@ == vid);
        assert(post.webhook_events@.len() == n + 1);
        assert forall|j: int|
            0 <= j < n implies #[trigger] post.webhook_events@[j] == pre.webhook_events@[j] by {
            assert(s2.webhook_events@[j] == pre.webhook_events@[j]);
            if s2.webhook_events@[j].openai_video_id@ == vid && s2.webhook_events@[j].event_kind
                == kind {
                assert(pre.spec_event_exists(vid, kind));
            }
        }
        assert(post.webhook_events@.drop_last() =~= pre.webhook_events@);
        assert(post.webhook_events@.last().openai_video_id@ == vid);
        assert(post.webhook_events@.last().event_kind == kind);
        assert(post.webhook_events@.last().created_at == now_ms);
        assert(post.webhook_events@.last().processed);
        assert(post.spec_event_exists(vid, kind));
    }
}

/// Notification idempotence: once a delivery of a (job, kind) pair has been
/// applied, every further delivery of the same pair is answered as a
/// duplicate and has no side effects at all.
pub proof fn lemma_notification_idempotent(
    s0: Store,
    s1: Store,
    s2: Store,
    vid: Seq<char>,
    kind: NotificationKind,
    base1: Seq<char>,
    base2: Seq<char>,
    now1: u64,
    now2: u64,
    r2: Result<NotificationOutcome, AppError>,
)
    requires
        notification_outcome(s0, s1, vid, kind, base1, now1, Ok(NotificationOutcome::Applied)),
        notification_outcome(s1, s2, vid, kind, base2, now2, r2),
    ensures
        r2 == Ok::<NotificationOutcome, AppError>(NotificationOutcome::Duplicate),
        same_store(s1, s2),
{
    assert(s1.spec_event_processed(vid, kind));
    match r2 {
        Ok(NotificationOutcome::Duplicate) => {},
        Ok(NotificationOutcome::Applied) => {
            assert(!s1.spec_event_processed(vid, kind));
        },
        Err(_) => {
            assert(!s1.spec_event_processed(vid, kind));
        },
    }
}

} // verus!
