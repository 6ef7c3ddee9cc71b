//! An in-memory relay for chat, presence and call signaling.
//!
//! Connections register with the relay, claim an identity, join at most
//! one room, and exchange events. Every decision the relay takes is a
//! function from the current state and one inbound event to the next state
//! and the list of payloads owed to each connection; the transport only
//! performs what that list says.
//!
//! - [`protocol`] holds the envelopes, [`session`] what a connection has
//!   claimed, and [`pipeline`] the bounded queue through which a connection
//!   is sent its payloads.
//! - [`registry`] and [`ledger`] are the two stores: the live connections,
//!   and the balance of each user.
//! - [`presence`] and [`relay`] work out whom a broadcast or a signaling
//!   payload reaches.
//! - [`model`] defines the relay as a state machine, [`router`] is the code
//!   that meets the definition, and [`laws`] proves what follows from it.

pub mod laws;
pub mod ledger;
pub mod model;
pub mod pipeline;
pub mod presence;
pub mod protocol;
pub mod registry;
pub mod relay;
pub mod router;
pub mod session;
