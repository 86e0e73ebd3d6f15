//! Stream-state notifications for a live-streaming channel: the credential
//! lifecycle, the event-subscription session, and the reconciler that turns
//! low-level notifications into debounced, user-meaningful events.

pub mod auth;
pub mod eventsub;
pub mod helix;
pub mod json;
pub mod reconcile;
pub mod session;
pub mod supervisor;
