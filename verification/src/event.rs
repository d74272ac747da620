//! Inbound events: what the connection manager tells the router.

use std::sync::Arc;

use vstd::prelude::*;

use crate::extension::Error;
use crate::extension::NetworkExtension;
use crate::extension::NodeToken;
use crate::extension::TimerToken;
use crate::routing::Callback;

verus! {

/// An event that concerns every registered extension.
#[derive(Clone, Copy, Debug)]
pub enum BroadcastEvent {
    /// A peer joined the fabric.
    NodeAdded { node: NodeToken },
    /// A peer left the fabric.
    NodeRemoved { node: NodeToken },
}

/// An event that concerns the one extension it is addressed to.
#[derive(Clone, Copy, Debug)]
pub enum TargetedEvent<'a> {
    /// A peer completed the negotiation of the extension.
    Connected { node: NodeToken },
    /// A negotiation that the extension asked for was accepted.
    ConnectionAllowed { node: NodeToken },
    /// A negotiation that the extension asked for was turned down.
    ConnectionDenied { node: NodeToken, error: Error },
    /// A peer sent a message to the extension.
    Message { node: NodeToken, data: &'a Vec<u8> },
    /// A timer that the extension asked for was armed.
    TimerSetAllowed { timer: TimerToken },
    /// A timer that the extension asked for was turned down.
    TimerSetDenied { timer: TimerToken, error: Error },
    /// A timer of the extension fired.
    Timeout { timer: TimerToken },
}

impl BroadcastEvent {
    /// The callback that this event invokes.
    pub open spec fn callback(self) -> Callback {
        match self {
            BroadcastEvent::NodeAdded { .. } => Callback::NodeAdded,
            BroadcastEvent::NodeRemoved { .. } => Callback::NodeRemoved,
        }
    }

    /// That the handler of this event returned from a call on `extension`
    /// with the event's own arguments.
    pub open spec fn handled<E: NetworkExtension>(self, extension: &E) -> bool {
        match self {
            BroadcastEvent::NodeAdded { node } => call_ensures(
                E::on_node_added,
                (extension, &node),
                (),
            ),
            BroadcastEvent::NodeRemoved { node } => call_ensures(
                E::on_node_removed,
                (extension, &node),
                (),
            ),
        }
    }

    /// That the handler of this event ran on some extension of type `E`.
    pub open spec fn handled_by_some<E: NetworkExtension>(self) -> bool {
        exists|extension: Arc<E>| #[trigger] self.handled(&*extension)
    }

    /// Invokes on `extension` the callback that this event stands for, with
    /// the event's own arguments, and says which one it was.
    pub fn notify<E: NetworkExtension>(&self, extension: &E) -> (callback: Callback)
        ensures
            self.handled(extension),
            callback == self.callback(),
            callback.is_broadcast(),
    {
        match *self {
            BroadcastEvent::NodeAdded { node } => {
                extension.on_node_added(&node);
                Callback::NodeAdded
            },
            BroadcastEvent::NodeRemoved { node } => {
                extension.on_node_removed(&node);
                Callback::NodeRemoved
            },
        }
    }
}

impl<'a> TargetedEvent<'a> {
    /// The callback that this event invokes.
    pub open spec fn callback(self) -> Callback {
        match self {
            TargetedEvent::Connected { .. } => Callback::Connected,
            TargetedEvent::ConnectionAllowed { .. } => Callback::ConnectionAllowed,
            TargetedEvent::ConnectionDenied { .. } => Callback::ConnectionDenied,
            TargetedEvent::Message { .. } => Callback::Message,
            TargetedEvent::TimerSetAllowed { .. } => Callback::TimerSetAllowed,
            TargetedEvent::TimerSetDenied { .. } => Callback::TimerSetDenied,
            TargetedEvent::Timeout { .. } => Callback::Timeout,
        }
    }

    /// That the handler of this event returned from a call on `extension`
    /// with the event's own arguments.
    pub open spec fn handled<E: NetworkExtension>(self, extension: &E) -> bool {
        match self {
            TargetedEvent::Connected { node } => call_ensures(
                E::on_connected,
                (extension, &node),
                (),
            ),
            TargetedEvent::ConnectionAllowed { node } => call_ensures(
                E::on_connection_allowed,
                (extension, &node),
                (),
            ),
            TargetedEvent::ConnectionDenied { node, error } => call_ensures(
                E::on_connection_denied,
                (extension, &node, error),
                (),
            ),
            TargetedEvent::Message { node, data } => call_ensures(
                E::on_message,
                (extension, &node, data),
                (),
            ),
            TargetedEvent::TimerSetAllowed { timer } => call_ensures(
                E::on_timer_set_allowed,
                (extension, timer),
                (),
            ),
            TargetedEvent::TimerSetDenied { timer, error } => call_ensures(
                E::on_timer_set_denied,
                (extension, timer, error),
                (),
            ),
            TargetedEvent::Timeout { timer } => call_ensures(E::on_timeout, (extension, timer), ()),
        }
    }

    /// That the handler of this event ran on some extension of type `E`.
    pub open spec fn handled_by_some<E: NetworkExtension>(self) -> bool {
        exists|extension: Arc<E>| #[trigger] self.handled(&*extension)
    }

    /// Invokes on `extension` the callback that this event stands for, with
    /// the event's own arguments, and says which one it was.
    pub fn notify<E: NetworkExtension>(&self, extension: &E) -> (callback: Callback)
        ensures
            self.handled(extension),
            callback == self.callback(),
            callback.is_targeted(),
    {
        match *self {
            TargetedEvent::Connected { node } => {
                extension.on_connected(&node);
                Callback::Connected
            },
            TargetedEvent::ConnectionAllowed { node } => {
                extension.on_connection_allowed(&node);
                Callback::ConnectionAllowed
            },
            TargetedEvent::ConnectionDenied { node, error } => {
                extension.on_connection_denied(&node, error);
                Callback::ConnectionDenied
            },
            TargetedEvent::Message { node, data } => {
                extension.on_message(&node, data);
                Callback::Message
            },
            TargetedEvent::TimerSetAllowed { timer } => {
                extension.on_timer_set_allowed(timer);
                Callback::TimerSetAllowed
            },
            TargetedEvent::TimerSetDenied { timer, error } => {
                extension.on_timer_set_denied(timer, error);
                Callback::TimerSetDenied
            },
            TargetedEvent::Timeout { timer } => {
                extension.on_timeout(timer);
                Callback::Timeout
            },
        }
    }
}

} // verus!
