//! The router: one registry behind one reader-writer lock.

use std::sync::mpsc::Sender;
use std::sync::Arc;

use parking_lot::lock_api::RwLock;
use parking_lot::RawRwLock;
use vstd::prelude::*;

use crate::api::ClientApi;
use crate::command::Command;
use crate::event::BroadcastEvent;
use crate::event::TargetedEvent;
use crate::extension::Error;
use crate::extension::NetworkExtension;
use crate::extension::NodeToken;
use crate::extension::TimerToken;
use crate::routing::RegistrationError;
use crate::registry::Registry;
use crate::shared::borrow;
use crate::shared::borrow_mut;
use crate::shared::new_lock;
use crate::shared::read_guard;
use crate::shared::write_guard;

verus! {

/// The router of one node.
///
/// Any number of threads may dispatch at once: dispatch takes the lock for
/// reading. Registration and teardown take it for writing, so neither ever
/// overlaps a dispatch, and no dispatch sees an extension that was not
/// initialized yet.
///
/// Callbacks run while the lock is held. A callback that registers an
/// extension with the same router, or tears the router down, waits for a
/// lock that its own caller holds, and never returns; one that dispatches
/// may wait forever behind a registration that waits for its caller.
///
/// What a call finds in the registry depends on the calls that other threads
/// made before it, so the functions here promise nothing that depends on
/// it: whether a name is registered, how many extensions there are, whether
/// a registration is accepted. Each one takes the lock and then does what
/// the function of the same purpose in [`Registry`] does, whose contract
/// states the rule for the registry that it finds. What they do promise is
/// what an answer means: an event that was delivered was handled by an
/// extension, with the arguments given.
#[verifier::reject_recursive_types(E)]
pub struct Client<E: NetworkExtension> {
    extensions: RwLock<RawRwLock, Registry<E>>,
}

impl<E: NetworkExtension> Client<E> {
    /// A router with no extension.
    pub fn new() -> (client: Arc<Self>) {
        Arc::new(Client { extensions: new_lock(Registry::new()) })
    }

    /// Registers `extension` and returns its handle: see
    /// [`Registry::register_extension`]. The extension is initialized before
    /// the lock is released.
    ///
    /// Whether the router takes the extension depends on what other threads
    /// registered before. A handle that comes back is made for `extension`
    /// and sends on `channel`, and the extension was initialized with it.
    pub fn register_extension(&self, extension: Arc<E>, channel: Sender<Command>) -> (result:
        Result<Arc<ClientApi<E>>, RegistrationError>)
        ensures
            result matches Ok(api) ==> api.made_for() == extension && api.channel() == channel,
            result matches Ok(api) ==> call_ensures(E::on_initialize, (&*extension, api), ()),
    {
        let mut guard = write_guard(&self.extensions);
        borrow_mut(&mut guard).register_extension(extension, channel)
    }

    /// Hands `event` to every extension: see [`Registry::broadcast`]. Says
    /// how many were told; if any was, the handler of the event ran.
    pub fn broadcast(&self, event: &BroadcastEvent) -> (notified: usize)
        ensures
            notified > 0 ==> event.handled_by_some::<E>(),
    {
        let guard = read_guard(&self.extensions);
        let registry = borrow(&guard);
        let notified = registry.broadcast(event);
        proof {
            if notified > 0 {
                let first = registry@.names[0];
                assert(registry@.registered(first));
                assert(event.handled(&*registry.extension_of(first)));
            }
        }
        notified
    }

    /// Hands `event` to the extension called `name`: see
    /// [`Registry::deliver`]. Says whether there was such an extension; if
    /// there was, the handler of the event ran.
    pub fn deliver(&self, name: &String, event: &TargetedEvent) -> (delivered: bool)
        ensures
            delivered ==> event.handled_by_some::<E>(),
    {
        let guard = read_guard(&self.extensions);
        match borrow(&guard).deliver(name, event) {
            Some(extension) => {
                assert(event.handled(&**extension));
                true
            },
            None => false,
        }
    }

    /// Tells every extension that the peer `id` joined. Says how many were
    /// told.
    pub fn on_node_added(&self, id: &NodeToken) -> (notified: usize)
        ensures
            notified > 0 ==> exists|extension: Arc<E>| #[trigger]
                call_ensures(E::on_node_added, (&*extension, id), ()),
    {
        let event = BroadcastEvent::NodeAdded { node: *id };
        let notified = self.broadcast(&event);
        proof {
            if notified > 0 {
                let extension = choose|extension: Arc<E>| #[trigger] event.handled(&*extension);
                assert(call_ensures(E::on_node_added, (&*extension, id), ()));
            }
        }
        notified
    }

    /// Tells every extension that the peer `id` left. Says how many were
    /// told.
    pub fn on_node_removed(&self, id: &NodeToken) -> (notified: usize)
        ensures
            notified > 0 ==> exists|extension: Arc<E>| #[trigger]
                call_ensures(E::on_node_removed, (&*extension, id), ()),
    {
        let event = BroadcastEvent::NodeRemoved { node: *id };
        let notified = self.broadcast(&event);
        proof {
            if notified > 0 {
                let extension = choose|extension: Arc<E>| #[trigger] event.handled(&*extension);
                assert(call_ensures(E::on_node_removed, (&*extension, id), ()));
            }
        }
        notified
    }

    /// Tells the extension `name` that the peer `id` completed its
    /// negotiation. Says whether there was such an extension.
    pub fn on_connected(&self, name: &String, id: &NodeToken) -> (delivered: bool)
        ensures
            delivered ==> exists|extension: Arc<E>| #[trigger]
                call_ensures(E::on_connected, (&*extension, id), ()),
    {
        let event = TargetedEvent::Connected { node: *id };
        let delivered = self.deliver(name, &event);
        proof {
            if delivered {
                let extension = choose|extension: Arc<E>| #[trigger] event.handled(&*extension);
                assert(call_ensures(E::on_connected, (&*extension, id), ()));
            }
        }
        delivered
    }

    /// Tells the extension `name` that its negotiation with `id` was
    /// accepted. Says whether there was such an extension.
    pub fn on_connection_allowed(&self, name: &String, id: &NodeToken) -> (delivered: bool)
        ensures
            delivered ==> exists|extension: Arc<E>| #[trigger]
                call_ensures(E::on_connection_allowed, (&*extension, id), ()),
    {
        let event = TargetedEvent::ConnectionAllowed { node: *id };
        let delivered = self.deliver(name, &event);
        proof {
            if delivered {
                let extension = choose|extension: Arc<E>| #[trigger] event.handled(&*extension);
                assert(call_ensures(E::on_connection_allowed, (&*extension, id), ()));
            }
        }
        delivered
    }

    /// Tells the extension `name` that its negotiation with `id` was turned
    /// down. Says whether there was such an extension.
    pub fn on_connection_denied(
        &self,
        name: &String,
        id: &NodeToken,
        error: Error,
    ) -> (delivered: bool)
        ensures
            delivered ==> exists|extension: Arc<E>| #[trigger]
                call_ensures(E::on_connection_denied, (&*extension, id, error), ()),
    {
        let event = TargetedEvent::ConnectionDenied { node: *id, error };
        let delivered = self.deliver(name, &event);
        proof {
            if delivered {
                let extension = choose|extension: Arc<E>| #[trigger] event.handled(&*extension);
                assert(call_ensures(E::on_connection_denied, (&*extension, id, error), ()));
            }
        }
        delivered
    }

    /// Hands the extension `name` a message from the peer `id`. Says whether
    /// there was such an extension.
    pub fn on_message(&self, name: &String, id: &NodeToken, data: &Vec<u8>) -> (delivered: bool)
        ensures
            delivered ==> exists|extension: Arc<E>| #[trigger]
                call_ensures(E::on_message, (&*extension, id, data), ()),
    {
        let event = TargetedEvent::Message { node: *id, data };
        let delivered = self.deliver(name, &event);
        proof {
            if delivered {
                let extension = choose|extension: Arc<E>| #[trigger] event.handled(&*extension);
                assert(call_ensures(E::on_message, (&*extension, id, data), ()));
            }
        }
        delivered
    }

    /// Tears the router down: see [`Registry::close`]. Says how many
    /// extensions were told; if any was, its `on_close` ran.
    pub fn on_close(&self) -> (notified: usize)
        ensures
            notified > 0 ==> exists|extension: Arc<E>| #[trigger]
                call_ensures(E::on_close, (&*extension,), ()),
    {
        let mut guard = write_guard(&self.extensions);
        let registry = borrow_mut(&mut guard);
        let ghost before = *registry;
        let notified = registry.close();
        proof {
            if notified > 0 {
                let first = before@.names[0];
                assert(before@.registered(first));
                assert(call_ensures(E::on_close, (&*before.extension_of(first),), ()));
            }
        }
        notified
    }

    /// Tells the extension `name` that its timer was armed. Says whether
    /// there was such an extension.
    pub fn on_timer_set_allowed(&self, name: &String, timer_id: TimerToken) -> (delivered: bool)
        ensures
            delivered ==> exists|extension: Arc<E>| #[trigger]
                call_ensures(E::on_timer_set_allowed, (&*extension, timer_id), ()),
    {
        let event = TargetedEvent::TimerSetAllowed { timer: timer_id };
        let delivered = self.deliver(name, &event);
        proof {
            if delivered {
                let extension = choose|extension: Arc<E>| #[trigger] event.handled(&*extension);
                assert(call_ensures(E::on_timer_set_allowed, (&*extension, timer_id), ()));
            }
        }
        delivered
    }

    /// Tells the extension `name` that its timer was turned down. Says
    /// whether there was such an extension.
    pub fn on_timer_set_denied(
        &self,
        name: &String,
        timer_id: TimerToken,
        error: Error,
    ) -> (delivered: bool)
        ensures
            delivered ==> exists|extension: Arc<E>| #[trigger]
                call_ensures(E::on_timer_set_denied, (&*extension, timer_id, error), ()),
    {
        let event = TargetedEvent::TimerSetDenied { timer: timer_id, error };
        let delivered = self.deliver(name, &event);
        proof {
            if delivered {
                let extension = choose|extension: Arc<E>| #[trigger] event.handled(&*extension);
                assert(call_ensures(E::on_timer_set_denied, (&*extension, timer_id, error), ()));
            }
        }
        delivered
    }

    /// Tells the extension `name` that its timer fired. Says whether there
    /// was such an extension.
    pub fn on_timeout(&self, name: &String, timer_id: TimerToken) -> (delivered: bool)
        ensures
            delivered ==> exists|extension: Arc<E>| #[trigger]
                call_ensures(E::on_timeout, (&*extension, timer_id), ()),
    {
        let event = TargetedEvent::Timeout { timer: timer_id };
        let delivered = self.deliver(name, &event);
        proof {
            if delivered {
                let extension = choose|extension: Arc<E>| #[trigger] event.handled(&*extension);
                assert(call_ensures(E::on_timeout, (&*extension, timer_id), ()));
            }
        }
        delivered
    }
}

} // verus!
