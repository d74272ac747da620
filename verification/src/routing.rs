//! The routing rules, stated as mathematics.
//!
//! A router is a list of names and a flag that says whether it was torn
//! down. Each operation on it emits deliveries (an extension's name and the
//! callback invoked on it) and leads to a next state. The executable router
//! in [`crate::registry`] is specified against these functions; the laws in
//! [`crate::laws`] are proved about them.

use vstd::prelude::*;

verus! {

/// The operations of an extension that the router invokes.
#[derive(Clone, Copy, Debug, PartialEq, Eq, Structural)]
pub enum Callback {
    Initialize,
    NodeAdded,
    NodeRemoved,
    Connected,
    ConnectionAllowed,
    ConnectionDenied,
    Message,
    Close,
    TimerSetAllowed,
    TimerSetDenied,
    Timeout,
}

impl Callback {
    /// The callbacks that go to every registered extension when a peer joins
    /// or leaves.
    pub open spec fn is_broadcast(self) -> bool {
        self == Callback::NodeAdded || self == Callback::NodeRemoved
    }

    /// The callbacks that go to the one extension that an event names.
    pub open spec fn is_targeted(self) -> bool {
        ||| self == Callback::Connected
        ||| self == Callback::ConnectionAllowed
        ||| self == Callback::ConnectionDenied
        ||| self == Callback::Message
        ||| self == Callback::TimerSetAllowed
        ||| self == Callback::TimerSetDenied
        ||| self == Callback::Timeout
    }
}

/// Why a registration was turned down.
#[derive(Clone, Copy, Debug, PartialEq, Eq, Structural)]
pub enum RegistrationError {
    /// An extension of that name is registered already. It stays.
    NameInUse,
    /// The router was torn down and takes no extension any more.
    RouterClosed,
}

/// One invocation: `callback` was called on the extension named `target`.
pub struct Delivery {
    pub target: Seq<char>,
    pub callback: Callback,
}

/// What the router knows: the names of the registered extensions, in the
/// order of their registration, and whether the router was torn down.
pub struct RouterState {
    pub names: Seq<Seq<char>>,
    pub closed: bool,
}

/// What can be asked of a router.
pub enum Operation {
    /// Register an extension called `name`.
    Register { name: Seq<char> },
    /// Tell every extension of a peer that joined or left.
    Broadcast { callback: Callback },
    /// Hand an event to the extension called `name`.
    Targeted { name: Seq<char>, callback: Callback },
    /// Tear the router down.
    Close,
}

impl Operation {
    /// An operation carries a callback of its own sort.
    pub open spec fn valid(self) -> bool {
        match self {
            Operation::Register { .. } => true,
            Operation::Broadcast { callback } => callback.is_broadcast(),
            Operation::Targeted { callback, .. } => callback.is_targeted(),
            Operation::Close => true,
        }
    }
}

/// One delivery of `callback` to each of `names`, in their order.
pub open spec fn to_all(names: Seq<Seq<char>>, callback: Callback) -> Seq<Delivery> {
    Seq::new(names.len(), |i: int| Delivery { target: names[i], callback })
}

impl RouterState {
    /// A router that was just made: nothing registered, not torn down.
    pub open spec fn start() -> RouterState {
        RouterState { names: Seq::empty(), closed: false }
    }

    /// Whether an extension called `name` is registered.
    pub open spec fn registered(self, name: Seq<char>) -> bool {
        self.names.contains(name)
    }

    /// Why an extension called `name` could not be registered now, if it
    /// could not: a router that was torn down takes none, a router in use
    /// takes none under a name that is taken.
    pub open spec fn refusal(self, name: Seq<char>) -> Option<RegistrationError> {
        if self.closed {
            Some(RegistrationError::RouterClosed)
        } else if self.registered(name) {
            Some(RegistrationError::NameInUse)
        } else {
            None
        }
    }

    /// Whether an extension called `name` could be registered now.
    pub open spec fn accepts(self, name: Seq<char>) -> bool {
        self.refusal(name) is None
    }

    /// No name occurs twice, and a router that was torn down holds nothing.
    pub open spec fn well_formed(self) -> bool {
        &&& self.names.no_duplicates()
        &&& self.closed ==> self.names.len() == 0
    }

    /// The deliveries that `operation` causes in this state.
    pub open spec fn emitted(self, operation: Operation) -> Seq<Delivery> {
        match operation {
            Operation::Register { name } => if self.accepts(name) {
                seq![Delivery { target: name, callback: Callback::Initialize }]
            } else {
                Seq::empty()
            },
            Operation::Broadcast { callback } => to_all(self.names, callback),
            Operation::Targeted { name, callback } => if self.registered(name) {
                seq![Delivery { target: name, callback }]
            } else {
                Seq::empty()
            },
            Operation::Close => to_all(self.names, Callback::Close),
        }
    }

    /// The state that `operation` leads to.
    pub open spec fn next(self, operation: Operation) -> RouterState {
        match operation {
            Operation::Register { name } => if self.accepts(name) {
                RouterState { names: self.names.push(name), closed: false }
            } else {
                self
            },
            Operation::Broadcast { .. } => self,
            Operation::Targeted { .. } => self,
            Operation::Close => RouterState { names: Seq::empty(), closed: true },
        }
    }
}

/// The state of a router after `operations`, starting from
/// [`RouterState::start`].
pub open spec fn state_after(operations: Seq<Operation>) -> RouterState
    decreases operations.len(),
{
    if operations.len() == 0 {
        RouterState::start()
    } else {
        state_after(operations.drop_last()).next(operations.last())
    }
}

/// Everything a router delivers in the course of `operations`, in order.
pub open spec fn trace(operations: Seq<Operation>) -> Seq<Delivery>
    decreases operations.len(),
{
    if operations.len() == 0 {
        Seq::empty()
    } else {
        trace(operations.drop_last()) + state_after(operations.drop_last()).emitted(
            operations.last(),
        )
    }
}

/// What the extension called `name` sees of `deliveries`: the callbacks
/// addressed to it, in order.
pub open spec fn observed(deliveries: Seq<Delivery>, name: Seq<char>) -> Seq<Callback>
    decreases deliveries.len(),
{
    if deliveries.len() == 0 {
        Seq::empty()
    } else {
        let earlier = observed(deliveries.drop_last(), name);
        if deliveries.last().target == name {
            earlier.push(deliveries.last().callback)
        } else {
            earlier
        }
    }
}

/// The shape of what one extension sees over the life of a router: nothing
/// at all, or `Initialize` first and never again, and `Close` nowhere but at
/// the very end.
pub open spec fn lifecycle(history: Seq<Callback>) -> bool {
    history.len() > 0 ==> {
        &&& history[0] == Callback::Initialize
        &&& forall|i: int| 0 < i < history.len() ==> history[i] != Callback::Initialize
        &&& forall|i: int| 0 <= i < history.len() - 1 ==> history[i] != Callback::Close
    }
}

/// A history of an extension that was initialized and not closed yet.
pub open spec fn live(history: Seq<Callback>) -> bool {
    history.len() > 0 && history.last() != Callback::Close
}

/// Whether every operation in `operations` carries a callback of its own
/// sort.
pub open spec fn all_valid(operations: Seq<Operation>) -> bool {
    forall|i: int| 0 <= i < operations.len() ==> (#[trigger] operations[i]).valid()
}

/// Whether `operations` never tear the router down.
pub open spec fn never_closes(operations: Seq<Operation>) -> bool {
    forall|i: int| 0 <= i < operations.len() ==> #[trigger] operations[i] != Operation::Close
}

/// Whether `operations` try to register an extension called `name`.
pub open spec fn attempts(operations: Seq<Operation>, name: Seq<char>) -> bool {
    exists|i: int|
        0 <= i < operations.len() && #[trigger] operations[i] == (Operation::Register { name })
}

/// How often `callback` occurs in `history`.
pub open spec fn occurrences(history: Seq<Callback>, callback: Callback) -> nat
    decreases history.len(),
{
    if history.len() == 0 {
        0
    } else {
        occurrences(history.drop_last(), callback) + if history.last() == callback {
            1nat
        } else {
            0nat
        }
    }
}

/// One targeted operation for `name` per callback in `callbacks`, in order.
pub open spec fn targeted_run(name: Seq<char>, callbacks: Seq<Callback>) -> Seq<Operation> {
    Seq::new(callbacks.len(), |i: int| Operation::Targeted { name, callback: callbacks[i] })
}

} // verus!
