//! A presence relay: one current-activity record per user identity, a
//! time-limited cache of bearer-token verifications, the routing rules that
//! bind each request to the right identity, and the badge that shows it.

pub mod activity;
pub mod auth;
pub mod badge;
pub mod client;
pub mod registry;
pub mod router;
pub mod text;
