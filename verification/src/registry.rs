//! The table of registered extensions, and dispatch over it.

use std::sync::mpsc::Sender;
use std::sync::Arc;

use vstd::prelude::*;

use crate::api::ClientApi;
use crate::command::Command;
use crate::event::BroadcastEvent;
use crate::event::TargetedEvent;
use crate::extension::NetworkExtension;
use crate::laws::lemma_push_contains;
use crate::laws::lemma_step_well_formed;
use crate::routing::Operation;
use crate::routing::RegistrationError;
use crate::routing::RouterState;

verus! {

struct Entry<E> {
    name: String,
    extension: Arc<E>,
}

/// The extensions of one router, by name.
///
/// No name occurs twice, and a registry that was closed is empty. Both hold
/// of every value of this type.
pub struct Registry<E: NetworkExtension> {
    entries: Vec<Entry<E>>,
    closed: bool,
}

impl<E: NetworkExtension> View for Registry<E> {
    type V = RouterState;

    closed spec fn view(&self) -> RouterState {
        RouterState {
            names: Seq::new(self.entries@.len(), |i: int| self.entries@[i].name@),
            closed: self.closed,
        }
    }
}

impl<E: NetworkExtension> Registry<E> {
    #[verifier::type_invariant]
    spec fn inv(self) -> bool {
        self@.well_formed()
    }

    /// The extension registered as `name`. Meaningful where
    /// `self@.registered(name)`.
    pub closed spec fn extension_of(&self, name: Seq<char>) -> Arc<E> {
        self.entries@[self@.names.index_of(name)].extension
    }

    /// A registry with nothing in it.
    pub fn new() -> (registry: Self)
        ensures
            registry@ == RouterState::start(),
    {
        let registry = Registry { entries: Vec::new(), closed: false };
        assert(registry@.names =~= Seq::empty());
        registry
    }

    /// The number of registered extensions.
    pub fn len(&self) -> (n: usize)
        ensures
            n == self@.names.len(),
            self@.well_formed(),
    {
        proof {
            use_type_invariant(self);
        }
        self.entries.len()
    }

    /// Whether the registry was closed.
    pub fn is_closed(&self) -> (closed: bool)
        ensures
            closed == self@.closed,
    {
        self.closed
    }

    fn position(&self, name: &String) -> (at: Option<usize>)
        ensures
            match at {
                Some(i) => i < self@.names.len() && self@.names[i as int] == name@,
                None => !self@.registered(name@),
            },
    {
        let mut i: usize = 0;
        while i < self.entries.len()
            invariant
                i <= self.entries@.len(),
                forall|j: int| 0 <= j < i ==> self@.names[j] != name@,
            decreases self.entries@.len() - i,
        {
            if self.entries[i].name == *name {
                return Some(i);
            }
            i += 1;
        }
        None
    }

    /// The extension registered as `name`, if there is one.
    pub fn find(&self, name: &String) -> (found: Option<&Arc<E>>)
        ensures
            found is Some <==> self@.registered(name@),
            found matches Some(extension) ==> *extension == self.extension_of(name@),
    {
        proof {
            use_type_invariant(self);
        }
        match self.position(name) {
            Some(i) => {
                proof {
                    let k = self@.names.index_of(name@);
                    assert(self@.names[i as int] == name@);
                    assert(self@.names.contains(name@));
                    assert(self@.names[k] == name@);
                    assert(k == i);
                }
                Some(&self.entries[i].extension)
            },
            None => None,
        }
    }

    /// Whether an extension is registered as `name`.
    pub fn contains(&self, name: &String) -> (registered: bool)
        ensures
            registered == self@.registered(name@),
    {
        self.position(name).is_some()
    }

    /// Enters `extension` under `name`, unless the name is taken or the
    /// registry was closed. A registry that turns the entry down stays as it
    /// is.
    pub fn insert(&mut self, name: String, extension: Arc<E>) -> (result: Result<
        (),
        RegistrationError,
    >)
        ensures
            result == match old(self)@.refusal(name@) {
                Some(error) => Err::<(), RegistrationError>(error),
                None => Ok::<(), RegistrationError>(()),
            },
            final(self)@ == old(self)@.next(Operation::Register { name: name@ }),
            final(self)@.well_formed(),
            forall|other: Seq<char>| #[trigger]
                final(self)@.registered(other) <==> old(self)@.registered(other) || (result is Ok
                    && other == name@),
            result is Ok ==> final(self).extension_of(name@) == extension,
            forall|other: Seq<char>|
                old(self)@.registered(other) ==> #[trigger] final(self).extension_of(other) == old(
                    self,
                ).extension_of(other),
    {
        proof {
            use_type_invariant(&*self);
        }
        if self.closed {
            return Err(RegistrationError::RouterClosed);
        }
        if self.position(&name).is_some() {
            return Err(RegistrationError::NameInUse);
        }
        let ghost before = *self;
        let mut entries: Vec<Entry<E>> = Vec::new();
        core::mem::swap(&mut self.entries, &mut entries);
        entries.push(Entry { name, extension });
        proof {
            let names = Seq::new(entries@.len(), |i: int| entries@[i].name@);
            assert(names =~= before@.names.push(name@));
            lemma_step_well_formed(before@, Operation::Register { name: name@ });
        }
        self.entries = entries;
        proof {
            assert(self@.names =~= before@.names.push(name@));
            assert forall|other: Seq<char>| #[trigger]
                self@.registered(other) <==> before@.registered(other) || other == name@ by {
                lemma_push_contains(before@.names, name@, other);
            }
            let at = self@.names.index_of(name@);
            assert(self@.names[before@.names.len() as int] == name@);
            assert(at == before@.names.len());
            assert forall|other: Seq<char>| before@.registered(other) implies #[trigger] self
                .extension_of(other) == before.extension_of(other) by {
                let k = before@.names.index_of(other);
                assert(self@.names[k] == other);
                assert(self@.names.index_of(other) == k);
            }
        }
        Ok(())
    }

    /// Registers `extension` under the name it gives itself. If the registry
    /// takes it, makes its handle on `channel` and initializes the extension
    /// with that handle, before anything else can reach it. If not, no handle
    /// is made and the extension is not called again.
    ///
    /// The extension's name is its own to state, so the contract speaks of
    /// whatever name came back: the registration succeeds exactly if the
    /// registry accepts that name. [`Registry::insert`] states the rule for a
    /// given name. The handle that comes back is made for `extension` and
    /// sends on `channel`, and it is the handle with which the extension was
    /// initialized. Whatever becomes of the registration, the extensions
    /// that were registered before stay under their names.
    pub fn register_extension(&mut self, extension: Arc<E>, channel: Sender<Command>) -> (result:
        Result<Arc<ClientApi<E>>, RegistrationError>)
        ensures
            final(self)@.well_formed(),
            exists|name: String|
                #![trigger call_ensures(E::name, (&*extension,), name)]
                {
                    &&& call_ensures(E::name, (&*extension,), name)
                    &&& final(self)@ == old(self)@.next(Operation::Register { name: name@ })
                    &&& match result {
                        Ok(_) => old(self)@.refusal(name@) is None && final(self).extension_of(
                            name@,
                        ) == extension,
                        Err(error) => old(self)@.refusal(name@) == Some(error),
                    }
                },
            forall|other: Seq<char>|
                old(self)@.registered(other) ==> #[trigger] final(self).extension_of(other) == old(
                    self,
                ).extension_of(other),
            old(self)@.closed ==> result matches Err(RegistrationError::RouterClosed),
            result matches Ok(api) ==> api.made_for() == extension && api.channel() == channel,
            result matches Ok(api) ==> call_ensures(E::on_initialize, (&*extension, api), ()),
    {
        let name = extension.name();
        let ghost before = *self;
        let ghost stated = name@;
        let ghost given = extension;
        match self.insert(name, extension) {
            Err(error) => {
                assert(before@.refusal(stated) == Some(error));
                assert(self@ == before@.next(Operation::Register { name: stated }));
                Err(error)
            },
            Ok(()) => {
                assert(before@.refusal(stated) is None);
                assert(self@.names.len() == before@.names.len() + 1);
                let stored = &self.entries[self.entries.len() - 1].extension;
                proof {
                    use_type_invariant(&*self);
                    let last = self@.names.len() - 1;
                    assert(self@.names == before@.names.push(stated));
                    assert(self@.names[last] == stated);
                    assert(self@.names.index_of(stated) == last);
                    assert(*stored == given);
                }
                let api = Arc::new(ClientApi::new(stored, channel));
                stored.on_initialize(Arc::clone(&api));
                Ok(api)
            },
        }
    }

    /// Hands `event` to every registered extension, in no order that a
    /// caller may rely on, and says how many were told. The handler of the
    /// event has run on each of them when this returns.
    pub fn broadcast(&self, event: &BroadcastEvent) -> (notified: usize)
        ensures
            notified == self@.emitted(Operation::Broadcast { callback: event.callback() }).len(),
            notified == self@.names.len(),
            forall|name: Seq<char>|
                self@.registered(name) ==> event.handled(&*(#[trigger] self.extension_of(name))),
    {
        let mut i: usize = 0;
        while i < self.entries.len()
            invariant
                i <= self.entries@.len(),
                forall|j: int|
                    0 <= j < i ==> event.handled(&*(#[trigger] self.entries@[j]).extension),
            decreases self.entries@.len() - i,
        {
            event.notify(&*self.entries[i].extension);
            i += 1;
        }
        proof {
            assert forall|name: Seq<char>| self@.registered(name) implies event.handled(
                &*(#[trigger] self.extension_of(name)),
            ) by {
                let at = self@.names.index_of(name);
                assert(self.extension_of(name) == self.entries@[at].extension);
            }
        }
        i
    }

    /// Hands `event` to the extension registered as `name` and to no other,
    /// and returns the extension that it went to, on which the handler of
    /// the event has then run. An event for a name that is not registered
    /// goes to nobody.
    pub fn deliver(&self, name: &String, event: &TargetedEvent) -> (reached: Option<&Arc<E>>)
        ensures
            reached is Some <==> self@.registered(name@),
            reached matches Some(extension) ==> *extension == self.extension_of(name@),
            reached matches Some(extension) ==> event.handled(&**extension),
            self@.emitted(Operation::Targeted { name: name@, callback: event.callback() }).len()
                == (if reached is Some {
                1nat
            } else {
                0nat
            }),
    {
        match self.find(name) {
            Some(extension) => {
                event.notify(&**extension);
                Some(extension)
            },
            None => None,
        }
    }

    /// Tears the registry down: tells every registered extension that the
    /// router is closing, then lets go of all of them and takes no new one.
    /// Says how many were told; `on_close` has run on each of them. On a
    /// registry that was closed before, that is none.
    pub fn close(&mut self) -> (notified: usize)
        ensures
            final(self)@ == old(self)@.next(Operation::Close),
            notified == old(self)@.emitted(Operation::Close).len(),
            notified == old(self)@.names.len(),
            final(self)@.well_formed(),
            forall|name: Seq<char>|
                old(self)@.registered(name) ==> call_ensures(
                    E::on_close,
                    (&*(#[trigger] old(self).extension_of(name)),),
                    (),
                ),
    {
        let mut i: usize = 0;
        while i < self.entries.len()
            invariant
                i <= self.entries@.len(),
                *self == *old(self),
                forall|j: int|
                    0 <= j < i ==> call_ensures(
                        E::on_close,
                        (&*(#[trigger] self.entries@[j]).extension,),
                        (),
                    ),
            decreases self.entries@.len() - i,
        {
            self.entries[i].extension.on_close();
            i += 1;
        }
        proof {
            assert forall|name: Seq<char>| old(self)@.registered(name) implies call_ensures(
                E::on_close,
                (&*(#[trigger] old(self).extension_of(name)),),
                (),
            ) by {
                let at = old(self)@.names.index_of(name);
                assert(old(self).extension_of(name) == old(self).entries@[at].extension);
            }
        }
        self.entries = Vec::new();
        self.closed = true;
        assert(self@.names =~= Seq::empty());
        i
    }
}

} // verus!
