//! The video-job table: inserting the persisted job record and the status
//! transitions the provider's reports drive.

use vstd::prelude::*;
use vstd::string::StringExecFns;
use crate::errors::AppError;
use crate::models::{Video, VideoStatus};
use crate::store::{lemma_video_openai_index, same_store, Store};

verus! {

/// Every row but the one with provider job id `vid` is untouched, and row
/// identities and costs are kept everywhere.
pub open spec fn videos_updated_except(pre: Seq<Video>, post: Seq<Video>, vid: Seq<char>) -> bool {
    &&& post.len() == pre.len()
    &&& forall|j: int|
        0 <= j < pre.len() && (#[trigger] pre[j]).openai_video_id@ != vid ==> post[j] == pre[j]
    &&& forall|j: int|
        0 <= j < pre.len() ==> {
            &&& (#[trigger] post[j]).id == pre[j].id
            &&& post[j].user_id == pre[j].user_id
            &&& post[j].openai_video_id == pre[j].openai_video_id
            &&& post[j].model == pre[j].model
            &&& post[j].prompt == pre[j].prompt
            &&& post[j].size == pre[j].size
            &&& post[j].seconds == pre[j].seconds
            &&& post[j].credits_cost == pre[j].credits_cost
            &&& post[j].created_at == pre[j].created_at
        }
}

/// Everything in the store except the video table is untouched.
pub open spec fn only_videos_changed(pre: Store, post: Store) -> bool {
    &&& post.users@ == pre.users@
    &&& post.transactions@ == pre.transactions@
    &&& post.locks@ == pre.locks@
    &&& post.webhook_events@ == pre.webhook_events@
}

impl Store {
    /// Persists a fresh job record. Fails as the store reports a key
    /// conflict when the id or the provider job id is already present.
    pub fn insert_video(&mut self, video: Video) -> (r: Result<(), AppError>)
        requires
            old(self).wf(),
            video.credits_cost > 0,
        ensures
            final(self).wf(),
            match r {
                Ok(()) => {
                    &&& !old(self).spec_has_video(video.id@)
                    &&& !old(self).spec_has_video_openai(video.openai_video_id@)
                    &&& final(self).videos@ == old(self).videos@.push(video)
                    &&& only_videos_changed(*old(self), *final(self))
                },
                Err(e) => {
                    &&& e matches AppError::DatabaseError(m) && m@ == "duplicate video id"@
                    &&& old(self).spec_has_video(video.id@) || old(self).spec_has_video_openai(
                        video.openai_video_id@,
                    )
                    &&& same_store(*old(self), *final(self))
                },
            },
    {
        let dup_id = match self.find_video(video.id.as_str()) {
            Some(_) => true,
            None => false,
        };
        let dup_openai = match self.find_video_by_openai(video.openai_video_id.as_str()) {
            Some(_) => true,
            None => false,
        };
        if dup_id || dup_openai {
            return Err(AppError::DatabaseError(String::from_str("duplicate video id")));
        }
        let ghost v = video;
        let ghost n = self.videos@.len() as int;
        self.videos.push(video);
        proof {
            assert forall|i: int, j: int|
                0 <= i < j < self.videos@.len() implies #[trigger] self.videos@[i].id@
                != #[trigger] self.videos@[j].id@ by {
                if j < n {
                    assert(self.videos@[i] == old(self).videos@[i]);
                    assert(self.videos@[j] == old(self).videos@[j]);
                } else {
                    assert(self.videos@[i] == old(self).videos@[i]);
                    assert(!old(self).spec_has_video(v.id@));
                }
            }
            assert forall|i: int, j: int|
                0 <= i < j < self.videos@.len() implies #[trigger] self.videos@[i].openai_video_id@
                != #[trigger] self.videos@[j].openai_video_id@ by {
                if j < n {
                    assert(self.videos@[i] == old(self).videos@[i]);
                    assert(self.videos@[j] == old(self).videos@[j]);
                } else {
                    assert(self.videos@[i] == old(self).videos@[i]);
                    assert(!old(self).spec_has_video_openai(v.openai_video_id@));
                }
            }
            assert forall|i: int|
                0 <= i < self.videos@.len() implies (#[trigger] self.videos@[i]).credits_cost
                > 0 by {
                if i < n {
                    assert(self.videos@[i] == old(self).videos@[i]);
                }
            }
        }
        Ok(())
    }

    /// The job record with this id.
    pub fn get_video_by_id(&self, video_id: &str) -> (r: Result<Video, AppError>)
        requires
            self.wf(),
        ensures
            match r {
                Ok(v) => {
                    &&& self.spec_has_video(video_id@)
                    &&& v.id@ == video_id@
                    &&& exists|i: int|
                        0 <= i < self.videos@.len() && v == #[trigger] self.videos@[i]
                },
                Err(e) => {
                    &&& !self.spec_has_video(video_id@)
                    &&& e matches AppError::NotFound(m) && m@ == "Video not found"@
                },
            },
    {
        match self.find_video(video_id) {
            Some(i) => Ok(self.videos[i].clone()),
            None => Err(AppError::NotFound(String::from_str("Video not found"))),
        }
    }

    /// The job record with this provider job id.
    pub fn get_video_by_openai_id(&self, openai_video_id: &str) -> (r: Result<Video, AppError>)
        requires
            self.wf(),
        ensures
            match r {
                Ok(v) => {
                    &&& self.spec_has_video_openai(openai_video_id@)
                    &&& v == self.spec_video_by_openai(openai_video_id@)
                },
                Err(e) => {
                    &&& !self.spec_has_video_openai(openai_video_id@)
                    &&& e matches AppError::NotFound(m) && m@ == "Video not found"@
                },
            },
    {
        match self.find_video_by_openai(openai_video_id) {
            Some(i) => {
                proof {
                    lemma_video_openai_index(*self, i as int, openai_video_id@);
                }
                Ok(self.videos[i].clone())
            },
            None => Err(AppError::NotFound(String::from_str("Video not found"))),
        }
    }

    /// Records the provider's progress report on a job. As a plain row
    /// update it succeeds, and changes nothing, when no such job exists.
    pub fn update_video_progress(
        &mut self,
        openai_video_id: &str,
        status: VideoStatus,
        progress: i32,
    ) -> (r: Result<(), AppError>)
        requires
            old(self).wf(),
        ensures
            final(self).wf(),
            r is Ok,
            only_videos_changed(*old(self), *final(self)),
            !old(self).spec_has_video_openai(openai_video_id@) ==> final(self).videos@ == old(
                self,
            ).videos@,
            old(self).spec_has_video_openai(openai_video_id@) ==> {
                &&& videos_updated_except(old(self).videos@, final(self).videos@, openai_video_id@)
                &&& forall|j: int|
                    0 <= j < old(self).videos@.len() && (#[trigger] old(
                        self,
                    ).videos@[j]).openai_video_id@ == openai_video_id@ ==> {
                        &&& final(self).videos@[j].status == status
                        &&& final(self).videos@[j].progress == progress
                        &&& final(self).videos@[j].video_url == old(self).videos@[j].video_url
                        &&& final(self).videos@[j].thumbnail_url == old(
                            self,
                        ).videos@[j].thumbnail_url
                        &&& final(self).videos@[j].spritesheet_url == old(
                            self,
                        ).videos@[j].spritesheet_url
                        &&& final(self).videos@[j].download_url_expires_at == old(
                            self,
                        ).videos@[j].download_url_expires_at
                        &&& final(self).videos@[j].completed_at == old(self).videos@[j].completed_at
                        &&& final(self).videos@[j].failed_at == old(self).videos@[j].failed_at
                        &&& final(self).videos@[j].error_message == old(
                            self,
                        ).videos@[j].error_message
                    }
            },
    {
        match self.find_video_by_openai(openai_video_id) {
            Some(i) => {
                let v = &mut self.videos[i];
                v.status = status;
                v.progress = progress;
                proof {
                    lemma_videos_update_unique(old(self).videos@, self.videos@, i as int);
                }
                Ok(())
            },
            None => Ok(()),
        }
    }

    /// Records a job as completed: the three content locations, a
    /// twenty-four-hour expiry on them, full progress, and the completion
    /// time. As a plain row update it succeeds, and changes nothing, when no
    /// such job exists.
    pub fn update_video_completed(
        &mut self,
        openai_video_id: &str,
        video_url: &str,
        thumbnail_url: &str,
        spritesheet_url: &str,
        now_ms: u64,
    ) -> (r: Result<(), AppError>)
        requires
            old(self).wf(),
            now_ms + 86_400_000 <= u64::MAX,
        ensures
            final(self).wf(),
            r is Ok,
            only_videos_changed(*old(self), *final(self)),
            !old(self).spec_has_video_openai(openai_video_id@) ==> final(self).videos@ == old(
                self,
            ).videos@,
            old(self).spec_has_video_openai(openai_video_id@) ==> {
                &&& videos_updated_except(old(self).videos@, final(self).videos@, openai_video_id@)
                &&& forall|j: int|
                    0 <= j < old(self).videos@.len() && (#[trigger] old(
                        self,
                    ).videos@[j]).openai_video_id@ == openai_video_id@ ==> {
                        &&& final(self).videos@[j].status == VideoStatus::Completed
                        &&& final(self).videos@[j].progress == 100
                        &&& final(self).videos@[j].video_url matches Some(u) && u@ == video_url@
                        &&& final(self).videos@[j].thumbnail_url matches Some(u) && u@
                            == thumbnail_url@
                        &&& final(self).videos@[j].spritesheet_url matches Some(u) && u@
                            == spritesheet_url@
                        &&& final(self).videos@[j].download_url_expires_at == Some(
                            (now_ms + 86_400_000) as u64,
                        )
                        &&& final(self).videos@[j].completed_at == Some(now_ms)
                        &&& final(self).videos@[j].failed_at == old(self).videos@[j].failed_at
                        &&& final(self).videos@[j].error_message == old(
                            self,
                        ).videos@[j].error_message
                    }
            },
    {
        match self.find_video_by_openai(openai_video_id) {
            Some(i) => {
                let v = &mut self.videos[i];
                v.status = VideoStatus::Completed;
                v.video_url = Some(String::from_str(video_url));
                v.thumbnail_url = Some(String::from_str(thumbnail_url));
                v.spritesheet_url = Some(String::from_str(spritesheet_url));
                v.download_url_expires_at = Some(now_ms + 86_400_000);
                v.completed_at = Some(now_ms);
                v.progress = 100;
                proof {
                    lemma_videos_update_unique(old(self).videos@, self.videos@, i as int);
                }
                Ok(())
            },
            None => Ok(()),
        }
    }

    /// Records a job as failed, with the provider's error message and the
    /// failure time. As a plain row update it succeeds, and changes nothing,
    /// when no such job exists.
    pub fn update_video_failed(&mut self, openai_video_id: &str, error_message: &str, now_ms: u64)
        -> (r: Result<(), AppError>)
        requires
            old(self).wf(),
        ensures
            final(self).wf(),
            r is Ok,
            only_videos_changed(*old(self), *final(self)),
            !old(self).spec_has_video_openai(openai_video_id@) ==> final(self).videos@ == old(
                self,
            ).videos@,
            old(self).spec_has_video_openai(openai_video_id@) ==> {
                &&& videos_updated_except(old(self).videos@, final(self).videos@, openai_video_id@)
                &&& forall|j: int|
                    0 <= j < old(self).videos@.len() && (#[trigger] old(
                        self,
                    ).videos@[j]).openai_video_id@ == openai_video_id@ ==> {
                        &&& final(self).videos@[j].status == VideoStatus::Failed
                        &&& final(self).videos@[j].error_message matches Some(m) && m@
                            == error_message@
                        &&& final(self).videos@[j].failed_at == Some(now_ms)
                        &&& final(self).videos@[j].progress == old(self).videos@[j].progress
                        &&& final(self).videos@[j].video_url == old(self).videos@[j].video_url
                        &&& final(self).videos@[j].thumbnail_url == old(
                            self,
                        ).videos@[j].thumbnail_url
                        &&& final(self).videos@[j].spritesheet_url == old(
                            self,
                        ).videos@[j].spritesheet_url
                        &&& final(self).videos@[j].download_url_expires_at == old(
                            self,
                        ).videos@[j].download_url_expires_at
                        &&& final(self).videos@[j].completed_at == old(self).videos@[j].completed_at
                    }
            },
    {
        match self.find_video_by_openai(openai_video_id) {
            Some(i) => {
                let v = &mut self.videos[i];
                v.status = VideoStatus::Failed;
                v.error_message = Some(String::from_str(error_message));
                v.failed_at = Some(now_ms);
                proof {
                    lemma_videos_update_unique(old(self).videos@, self.videos@, i as int);
                }
                Ok(())
            },
            None => Ok(()),
        }
    }
}

/// An in-place update of one video row that keeps its identity and cost
/// keeps the table's uniqueness and cost invariants.
proof fn lemma_videos_update_unique(pre: Seq<Video>, post: Seq<Video>, i: int)
    requires
        forall|a: int, b: int|
            0 <= a < b < pre.len() ==> #[trigger] pre[a].id@ != #[trigger] pre[b].id@,
        forall|a: int, b: int|
            0 <= a < b < pre.len() ==> #[trigger] pre[a].openai_video_id@
                != #[trigger] pre[b].openai_video_id@,
        forall|a: int| 0 <= a < pre.len() ==> (#[trigger] pre[a]).credits_cost > 0,
        0 <= i < pre.len(),
        post.len() == pre.len(),
        forall|j: int| 0 <= j < pre.len() && j != i ==> #[trigger] post[j] == pre[j],
        post[i].id == pre[i].id,
        post[i].openai_video_id == pre[i].openai_video_id,
        post[i].credits_cost == pre[i].credits_cost,
    ensures
        forall|a: int, b: int|
            0 <= a < b < post.len() ==> #[trigger] post[a].id@ != #[trigger] post[b].id@,
        forall|a: int, b: int|
            0 <= a < b < post.len() ==> #[trigger] post[a].openai_video_id@
                != #[trigger] post[b].openai_video_id@,
        forall|a: int| 0 <= a < post.len() ==> (#[trigger] post[a]).credits_cost > 0,
{
    assert(forall|j: int|
        0 <= j < post.len() ==> (#[trigger] post[j]).id@ == pre[j].id@
            && post[j].openai_video_id@ == pre[j].openai_video_id@ && post[j].credits_cost
            == pre[j].credits_cost);
}

} // verus!
