//! Client library for reporting event status updates to a monitoring
//! backend and receiving back the backend's consolidated view of the
//! event.
//!
//! The library validates the configuration, composes the authenticated
//! request (URL, headers, JSON body) and interprets the HTTP response;
//! the network transfer itself is left to the caller.

pub mod client;
pub mod error;
pub mod models;
pub mod wire;

pub use crate::client::ProbeClient;
pub use crate::client::PreparedRequest;
pub use crate::error::Error;
pub use crate::error::Result;
pub use crate::models::ErrorResponse;
pub use crate::models::EventConsolidatedState;
pub use crate::models::EventStatus;
pub use crate::models::EventStatusUpdatePayload;
pub use crate::models::Timestamp;
