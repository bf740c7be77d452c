//! An in-process message relay: a bounded broadcast hub, the subscriptions
//! that read from it, and the session that turns one subscription into a
//! stream of messages.
//!
//! The hub is a sequential object. A server that shares it between requests
//! puts it behind a lock, which gives the publishes their total order, and
//! wakes its waiting sessions after each publish and after a shutdown.

pub mod hub;
pub mod laws;
pub mod message;
pub mod registry;
pub mod ring;
pub mod routes;
pub mod session;
pub mod subscription;

pub use crate::hub::{Hub, HubClosed};
pub use crate::message::{Message, ValidationError};
pub use crate::ring::CAPACITY;
pub use crate::routes::{cors_headers, events, post, rocket, Header};
pub use crate::session::{Phase, Session, Step};
pub use crate::subscription::{Delivery, Subscription};
