//! Relay of monitoring alerts to chat cards: the alert-to-card transformation,
//! the channel table and its resolution from a query string, and the decisions
//! of the delivery retry loop.
pub mod json;
pub mod events;
pub mod card;
pub mod config;
pub mod delivery;
