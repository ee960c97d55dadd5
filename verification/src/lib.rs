//! The core of a small document editor: records kept in a transactional
//! object store, an ordered in-memory mirror of them, and the edit
//! lifecycle that lets the mirror follow the store and never run ahead of it.
//!
//! Nothing here touches the store or the page. The host does that: it asks
//! [`engine::Transaction`] what to do with the store next, hands the results
//! to [`bridge::SyncBridge`], and tells the listeners that
//! [`notify::Subscriptions`] names.

pub mod bridge;
pub mod codec;
pub mod engine;
pub mod identity;
pub mod mirror;
pub mod notify;
pub mod record;
pub mod store;

pub use bridge::SyncBridge;
pub use mirror::AppState;
pub use record::{DomRecord, JsonDom, JsonFrontDom};
pub use store::StoreError;
