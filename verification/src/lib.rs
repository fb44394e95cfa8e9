//! A prepaid-credit ledger with a per-account generation lock, a
//! debit/submit/compensate saga for paid jobs handed to an external video
//! provider, and an idempotent handler for the provider's terminal
//! notifications.

pub mod api;
pub mod auth;
pub mod codec;
pub mod coordinator;
pub mod credits;
pub mod errors;
pub mod guard;
mod ids;
pub mod ledger;
pub mod lock;
pub mod models;
pub mod pricing;
pub mod proxy;
pub mod queries;
pub mod store;
pub mod strutil;
pub mod time;
pub mod urls;
pub mod videos;
