//! A small client library for the Prowl push-notification service.
//!
//! A [`Notification`] is a validated payload: field lengths are checked once,
//! at construction, and a constructed value is immutable. The query string for
//! the Prowl `add` endpoint is assembled by [`Notification::request_url`];
//! issuing the HTTP request itself is left to the caller.

pub mod errors;
pub mod notification;
pub mod percent;
pub mod priority;

pub use errors::AddError;
pub use errors::CreationError;
pub use errors::evaluate_response;
pub use notification::Notification;
pub use priority::Priority;
