//! The rows of the persistent store and the request/response types of the
//! service, modeled over plain values: timestamps are milliseconds since the
//! Unix epoch, identifiers are strings.

use vstd::prelude::*;
use crate::ids::new_uuid;

verus! {

/// The kind of a ledger transaction.
#[derive(Debug, Clone, Copy, PartialEq, Eq, Structural)]
pub enum TransactionKind {
    /// The one-time signup bonus.
    Welcome,
    /// A purchase of credits.
    Purchase,
    /// The charge for one video generation.
    VideoGeneration,
    /// The compensating credit for a failed generation.
    Refund,
}

impl TransactionKind {
    /// The name the store records for the kind.
    pub fn as_str(&self) -> (r: &'static str)
        ensures
            r@ == spec_kind_str(*self),
    {
        match self {
            TransactionKind::Welcome => "welcome",
            TransactionKind::Purchase => "purchase",
            TransactionKind::VideoGeneration => "video_generation",
            TransactionKind::Refund => "refund",
        }
    }
}

/// The recorded name of a transaction kind.
pub open spec fn spec_kind_str(k: TransactionKind) -> Seq<char> {
    match k {
        TransactionKind::Welcome => "welcome"@,
        TransactionKind::Purchase => "purchase"@,
        TransactionKind::VideoGeneration => "video_generation"@,
        TransactionKind::Refund => "refund"@,
    }
}

/// Where a video stands with the external provider.
#[derive(Debug, Clone, Copy, PartialEq, Eq, Structural)]
pub enum VideoStatus {
    Queued,
    InProgress,
    Completed,
    Failed,
}

impl VideoStatus {
    /// The name the store records for the status.
    pub fn as_str(&self) -> (r: &'static str)
        ensures
            r@ == spec_status_str(*self),
    {
        match self {
            VideoStatus::Queued => "queued",
            VideoStatus::InProgress => "in_progress",
            VideoStatus::Completed => "completed",
            VideoStatus::Failed => "failed",
        }
    }
}

/// The recorded name of a video status.
pub open spec fn spec_status_str(s: VideoStatus) -> Seq<char> {
    match s {
        VideoStatus::Queued => "queued"@,
        VideoStatus::InProgress => "in_progress"@,
        VideoStatus::Completed => "completed"@,
        VideoStatus::Failed => "failed"@,
    }
}

/// The kind of a terminal notification from the provider.
#[derive(Debug, Clone, Copy, PartialEq, Eq, Structural)]
pub enum NotificationKind {
    Completed,
    Failed,
}

/// An account: the balance is only ever changed together with an appended
/// ledger transaction.
#[derive(Debug, PartialEq, Eq)]
pub struct User {
    pub id: String,
    pub apple_user_id: String,
    pub email: Option<String>,
    pub credits_balance: i64,
    pub total_videos_generated: i64,
    pub created_at: u64,
    pub updated_at: u64,
}

impl User {
    /// A fresh account with a zero balance and a random identifier.
    pub fn new(apple_user_id: String, email: Option<String>, now_ms: u64) -> (r: User)
        ensures
            r.id@.len() == 36,
            r.apple_user_id == apple_user_id,
            r.email == email,
            r.credits_balance == 0,
            r.total_videos_generated == 0,
            r.created_at == now_ms,
            r.updated_at == now_ms,
    {
        User {
            id: new_uuid(),
            apple_user_id,
            email,
            credits_balance: 0,
            total_videos_generated: 0,
            created_at: now_ms,
            updated_at: now_ms,
        }
    }
}

/// One immutable row of the append-only ledger.
#[derive(Debug, PartialEq, Eq)]
pub struct CreditTransaction {
    pub id: String,
    pub user_id: String,
    pub amount: i64,
    pub balance_after: i64,
    pub transaction_type: TransactionKind,
    pub description: String,
    pub video_id: Option<String>,
    pub revenuecat_transaction_id: Option<String>,
    pub metadata: Option<String>,
    pub created_at: u64,
}

/// The per-account marker that a paid job is in flight; the existence of the
/// row is the locked state.
#[derive(Debug, Clone, PartialEq, Eq)]
pub struct GenerationLock {
    pub user_id: String,
    pub video_id: String,
    pub acquired_at: u64,
}

/// One sighting of a terminal notification, keyed by the provider's job id
/// and the event kind; `processed` flips once its side effects are done.
#[derive(Debug, Clone, PartialEq, Eq)]
pub struct NotificationRecord {
    pub id: String,
    pub openai_video_id: String,
    pub event_kind: NotificationKind,
    pub created_at: u64,
    pub processed: bool,
}

/// One video job.
#[derive(Debug, PartialEq, Eq)]
pub struct Video {
    pub id: String,
    pub user_id: String,
    pub openai_video_id: String,
    pub status: VideoStatus,
    pub model: String,
    pub prompt: String,
    pub size: String,
    pub seconds: i32,
    pub video_url: Option<String>,
    pub thumbnail_url: Option<String>,
    pub spritesheet_url: Option<String>,
    pub download_url_expires_at: Option<u64>,
    pub credits_cost: i64,
    pub progress: i32,
    pub created_at: u64,
    pub completed_at: Option<u64>,
    pub failed_at: Option<u64>,
    pub error_message: Option<String>,
}

impl Video {
    /// A freshly queued video with a random identifier.
    pub fn new(
        user_id: String,
        openai_video_id: String,
        model: String,
        prompt: String,
        size: String,
        seconds: i32,
        credits_cost: i64,
        now_ms: u64,
    ) -> (r: Video)
        ensures
            r.id@.len() == 36,
            r.user_id == user_id,
            r.openai_video_id == openai_video_id,
            r.status == VideoStatus::Queued,
            r.model == model,
            r.prompt == prompt,
            r.size == size,
            r.seconds == seconds,
            r.video_url is None,
            r.thumbnail_url is None,
            r.spritesheet_url is None,
            r.download_url_expires_at is None,
            r.credits_cost == credits_cost,
            r.progress == 0,
            r.created_at == now_ms,
            r.completed_at is None,
            r.failed_at is None,
            r.error_message is None,
    {
        Video {
            id: new_uuid(),
            user_id,
            openai_video_id,
            status: VideoStatus::Queued,
            model,
            prompt,
            size,
            seconds,
            video_url: None,
            thumbnail_url: None,
            spritesheet_url: None,
            download_url_expires_at: None,
            credits_cost,
            progress: 0,
            created_at: now_ms,
            completed_at: None,
            failed_at: None,
            error_message: None,
        }
    }
}

/// A copy of an optional string.
pub(crate) fn clone_opt_string(o: &Option<String>) -> (r: Option<String>)
    ensures
        r == *o,
{
    match o {
        Some(s) => Some(s.clone()),
        None => None,
    }
}

/// A copy of an optional timestamp.
pub(crate) fn clone_opt_u64(o: &Option<u64>) -> (r: Option<u64>)
    ensures
        r == *o,
{
    match o {
        Some(v) => Some(*v),
        None => None,
    }
}

impl Clone for User {
    fn clone(&self) -> (r: Self)
        ensures
            r == *self,
    {
        User {
            id: self.id.clone(),
            apple_user_id: self.apple_user_id.clone(),
            email: clone_opt_string(&self.email),
            credits_balance: self.credits_balance,
            total_videos_generated: self.total_videos_generated,
            created_at: self.created_at,
            updated_at: self.updated_at,
        }
    }
}

impl Clone for CreditTransaction {
    fn clone(&self) -> (r: Self)
        ensures
            r == *self,
    {
        CreditTransaction {
            id: self.id.clone(),
            user_id: self.user_id.clone(),
            amount: self.amount,
            balance_after: self.balance_after,
            transaction_type: self.transaction_type,
            description: self.description.clone(),
            video_id: clone_opt_string(&self.video_id),
            revenuecat_transaction_id: clone_opt_string(&self.revenuecat_transaction_id),
            metadata: clone_opt_string(&self.metadata),
            created_at: self.created_at,
        }
    }
}

impl Clone for Video {
    fn clone(&self) -> (r: Self)
        ensures
            r == *self,
    {
        Video {
            id: self.id.clone(),
            user_id: self.user_id.clone(),
            openai_video_id: self.openai_video_id.clone(),
            status: self.status,
            model: self.model.clone(),
            prompt: self.prompt.clone(),
            size: self.size.clone(),
            seconds: self.seconds,
            video_url: clone_opt_string(&self.video_url),
            thumbnail_url: clone_opt_string(&self.thumbnail_url),
            spritesheet_url: clone_opt_string(&self.spritesheet_url),
            download_url_expires_at: clone_opt_u64(&self.download_url_expires_at),
            credits_cost: self.credits_cost,
            progress: self.progress,
            created_at: self.created_at,
            completed_at: clone_opt_u64(&self.completed_at),
            failed_at: clone_opt_u64(&self.failed_at),
            error_message: clone_opt_string(&self.error_message),
        }
    }
}

/// The body of a sign-in request.
#[derive(Debug, Clone, PartialEq, Eq)]
pub struct AppleTokenRequest {
    pub identity_token: String,
}

/// What a sign-in returns.
#[derive(Debug, Clone, PartialEq, Eq)]
pub struct AuthResponse {
    pub user_id: String,
    pub credits_balance: i64,
    pub created: bool,
}

/// The body of a video creation request.
#[derive(Debug, Clone, PartialEq, Eq)]
pub struct CreateVideoRequest {
    pub model: String,
    pub prompt: String,
    pub size: String,
    pub seconds: i32,
}

/// The body of a cost estimate request.
#[derive(Debug, Clone, PartialEq, Eq)]
pub struct EstimateRequest {
    pub model: String,
    pub size: String,
    pub seconds: i32,
}

/// What a cost estimate returns.
#[derive(Debug, Clone, PartialEq, Eq)]
pub struct EstimateResponse {
    pub credits_cost: i64,
    pub usd_equivalent: String,
    pub current_balance: i64,
    pub sufficient_credits: bool,
}

/// What a successful video creation returns.
#[derive(Debug, Clone, PartialEq, Eq)]
pub struct CreateVideoResponse {
    pub id: String,
    pub status: VideoStatus,
    pub credits_cost: i64,
    pub new_balance: i64,
    pub estimated_wait_seconds: i32,
}

/// What a balance query returns.
#[derive(Debug, Clone, PartialEq, Eq)]
pub struct BalanceResponse {
    pub credits_balance: i64,
    pub usd_equivalent: String,
}

/// The body of a purchase validation request.
#[derive(Debug, Clone, PartialEq, Eq)]
pub struct RevenueCatValidateRequest {
    pub transaction_id: String,
    pub product_id: String,
    pub receipt_data: String,
}

/// What a purchase validation returns.
#[derive(Debug, Clone, PartialEq, Eq)]
pub struct RevenueCatValidateResponse {
    pub success: bool,
    pub credits_added: i64,
    pub new_balance: i64,
}

/// A terminal event pushed by the provider.
#[derive(Debug, Clone, PartialEq, Eq)]
pub struct OpenAIWebhookEvent {
    pub id: String,
    pub object: String,
    pub created_at: i64,
    pub event_type: String,
    pub data: OpenAIWebhookData,
}

/// The payload of a pushed event: the provider's job id.
#[derive(Debug, Clone, PartialEq, Eq)]
pub struct OpenAIWebhookData {
    pub id: String,
}

/// What the provider reports for one job.
#[derive(Debug, Clone, PartialEq, Eq)]
pub struct OpenAIVideoResponse {
    pub id: String,
    pub object: String,
    pub created_at: i64,
    pub status: String,
    pub model: String,
    pub progress: Option<i32>,
    pub seconds: Option<String>,
    pub size: Option<String>,
    pub error: Option<OpenAIError>,
}

/// The error the provider reports for a failed job.
#[derive(Debug, Clone, PartialEq, Eq)]
pub struct OpenAIError {
    pub code: String,
    pub message: String,
}

} // verus!
