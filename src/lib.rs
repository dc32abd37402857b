//! A typed client for a billing API: resource records, expandable
//! references, list pages, and the requests and responses of the five
//! resource operations.
pub mod client;
pub mod decode;
pub mod encode;
pub mod error;
pub mod expandable;
pub mod json;
pub mod list;
pub mod subscriptions;
pub mod wire;
