//! Restock monitoring: detects catalog items that have newly become available,
//! selects the ones an operator subscribed to, builds the alert for each, and
//! computes how long to wait until the next scheduled poll.

pub mod checker;
pub mod discord;
pub mod monitor;
pub mod shopify;
pub mod subscription;
pub mod utils;
pub mod webhook;
