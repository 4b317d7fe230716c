//! A client-side runtime for the Revolt chat platform, as far as it decides and
//! computes: the cache that mirrors what the server holds, the decisions of
//! the client on the events it receives, and the plans of the requests it
//! makes. Nothing here reads a socket or sends a request.
//!
//! - [`models`] and [`builders`] are the records that go over the wire.
//! - [`cache`] mirrors users, channels, servers and members, and changes only
//!   by the events received from the server.
//! - [`client`] decides which command or callback an event goes to, whether
//!   the handshake succeeded, and when a heartbeat is due.
//! - [`http`] plans requests: their address and the rate limit they wait for.
//! - [`requests`] holds the requests that the models and events stand for.
//! - [`text`] works on text as a sequence of characters, [`sequences`] on
//!   sequences of any kind.

pub mod builders;
pub mod cache;
pub mod client;
pub mod error;
pub mod http;
pub mod models;
pub mod requests;
pub mod sequences;
pub mod text;
