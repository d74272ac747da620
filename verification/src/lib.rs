//! The extension layer of a peer-to-peer node.
//!
//! Protocol modules ("extensions") share one connection fabric. The router
//! keeps the table of registered extensions and hands every inbound event to
//! the right one; each extension pushes outbound commands back through its
//! own [`api::ClientApi`] handle.
//!
//! - [`routing`] states the rules of dispatch as mathematics, and [`laws`]
//!   proves what follows from them for every run of a router.
//! - [`registry`] is the table itself, verified against those rules.
//! - [`client`] puts the table behind a reader-writer lock.
//! - [`api`] and [`command`] build what goes out to the connection manager.
//! - [`extension`] and [`event`] name what comes in.
//! - [`asset_scheme`] and [`primitives`] hold a record of the ledger that
//!   extensions exchange: the scheme of an asset and its address.

pub mod api;
pub mod asset_scheme;
pub mod client;
pub mod command;
pub mod event;
pub mod extension;
pub mod laws;
pub mod primitives;
pub mod registry;
pub mod routing;
mod shared;

pub use api::ClientApi;
pub use api::Outcome;
pub use api::Request;
pub use client::Client;
pub use command::Command;
pub use command::CommandView;
pub use extension::Error;
pub use extension::NetworkExtension;
pub use extension::NodeToken;
pub use extension::TimerToken;
pub use routing::RegistrationError;
pub use registry::Registry;
pub use routing::Callback;
