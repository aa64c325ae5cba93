//! Event ingestion and fan-out for chat notifications.
//!
//! Raw change notifications are decoded into typed events together with the
//! users they concern, and each event is published to the live subscriptions
//! of those users.
//!
//! - [`decode`] turns a notification into an event and its users;
//! - [`registry`] keeps one multicast channel per user;
//! - [`dispatch`] publishes a decoded event to the channels of its users;
//! - [`stream`] frames events for the client's text-event stream;
//! - [`event`], [`record`] and [`json`] hold the data and its wire form;
//! - [`users`] and [`text`] are helpers, [`error`] the service's errors.

pub mod decode;
pub mod dispatch;
pub mod error;
pub mod event;
pub mod json;
pub mod record;
pub mod registry;
pub mod stream;
pub mod text;
pub mod users;
