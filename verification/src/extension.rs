//! The vocabulary shared by the router and the extensions.

use std::sync::Arc;

use vstd::prelude::*;

use crate::api::ClientApi;

verus! {

/// Handle of a remote peer. The router passes it through unchanged.
pub type NodeToken = usize;

/// Handle of a timer owned by an extension. The router passes it through
/// unchanged.
pub type TimerToken = usize;

/// Why the connection manager turned a request of an extension down.
#[derive(Clone, Copy, Debug, PartialEq, Eq, Structural)]
pub enum Error {
    /// The extension that made the request is gone.
    ExtensionDropped,
    /// The timer handle is already armed for this extension.
    DuplicatedTimerId,
    /// The connection manager has no timer left to give out.
    NoMoreTimerToken,
}

/// A protocol module that the router drives.
///
/// Every operation is a notification: the router calls it and expects no
/// answer. The router calls while it holds the lock on its table: shared
/// for an event, exclusive during registration and teardown. An extension
/// must therefore not call the router from inside one of these calls, nor
/// block in them: it may wait for a lock that its own caller holds. Its
/// handle is free to use at any time, since the handle takes no lock.
///
/// The router asks nothing of what an operation does and does not guard
/// against it: an operation that panics takes the calling thread down with
/// it, and one that blocks keeps every registration waiting.
pub trait NetworkExtension: Sized {
    /// The name under which the extension is registered and addressed.
    fn name(&self) -> String;

    /// Whether messages of this extension must be encrypted. Asked anew for
    /// each message that the extension sends.
    fn need_encryption(&self) -> bool;

    /// Called once, at the end of a successful registration, with the handle
    /// through which the extension issues its commands.
    fn on_initialize(&self, api: Arc<ClientApi<Self>>);

    /// A peer joined the fabric.
    fn on_node_added(&self, _node: &NodeToken) {
    }

    /// A peer left the fabric.
    fn on_node_removed(&self, _node: &NodeToken) {
    }

    /// A peer completed the negotiation of this extension.
    fn on_connected(&self, _node: &NodeToken) {
    }

    /// A negotiation that this extension asked for was accepted.
    fn on_connection_allowed(&self, _node: &NodeToken) {
    }

    /// A negotiation that this extension asked for was turned down.
    fn on_connection_denied(&self, _node: &NodeToken, _error: Error) {
    }

    /// A peer sent a message to this extension.
    fn on_message(&self, _node: &NodeToken, _message: &Vec<u8>) {
    }

    /// The router is going away. Nothing is delivered after this.
    fn on_close(&self) {
    }

    /// A timer that this extension asked for was armed.
    fn on_timer_set_allowed(&self, _timer: TimerToken) {
    }

    /// A timer that this extension asked for was turned down.
    fn on_timer_set_denied(&self, _timer: TimerToken, _error: Error) {
    }

    /// A timer of this extension fired.
    fn on_timeout(&self, _timer: TimerToken) {
    }
}

} // verus!
