//! What follows from the routing rules, for every router and every run.
//!
//! The laws speak of [`crate::routing`]: of single steps
//! ([`RouterState::emitted`], [`RouterState::next`]) and of whole runs
//! ([`trace`], [`observed`]). The lemmas before them carry the proofs.

use vstd::prelude::*;

use crate::routing::all_valid;
use crate::routing::attempts;
use crate::routing::lifecycle;
use crate::routing::live;
use crate::routing::never_closes;
use crate::routing::observed;
use crate::routing::occurrences;
use crate::routing::state_after;
use crate::routing::targeted_run;
use crate::routing::to_all;
use crate::routing::trace;
use crate::routing::Callback;
use crate::routing::Delivery;
use crate::routing::Operation;
use crate::routing::RouterState;

verus! {

proof fn lemma_observed_one(delivery: Delivery, name: Seq<char>)
    ensures
        observed(seq![delivery], name) == if delivery.target == name {
            seq![delivery.callback]
        } else {
            Seq::<Callback>::empty()
        },
{
    let one = seq![delivery];
    assert(one.drop_last() =~= Seq::<Delivery>::empty());
    assert(observed(one.drop_last(), name) =~= Seq::<Callback>::empty());
    assert(one.last() == delivery);
    if delivery.target == name {
        assert(observed(one, name) =~= seq![delivery.callback]);
    } else {
        assert(observed(one, name) =~= Seq::<Callback>::empty());
    }
}

/// What an extension sees of two runs of deliveries, one after the other,
/// is what it sees of the first followed by what it sees of the second.
pub proof fn lemma_observed_concat(first: Seq<Delivery>, second: Seq<Delivery>, name: Seq<char>)
    ensures
        observed(first + second, name) == observed(first, name) + observed(second, name),
    decreases second.len(),
{
    if second.len() == 0 {
        assert(first + second =~= first);
        assert(observed(first, name) + observed(second, name) =~= observed(first, name));
    } else {
        let both = first + second;
        assert(both.drop_last() =~= first + second.drop_last());
        assert(both.last() == second.last());
        lemma_observed_concat(first, second.drop_last(), name);
        let earlier = observed(first, name) + observed(second.drop_last(), name);
        if second.last().target == name {
            assert(earlier.push(second.last().callback) =~= observed(first, name) + observed(
                second.drop_last(),
                name,
            ).push(second.last().callback));
        }
    }
}

proof fn lemma_observed_to_all(names: Seq<Seq<char>>, callback: Callback, name: Seq<char>)
    requires
        names.no_duplicates(),
    ensures
        observed(to_all(names, callback), name) == if names.contains(name) {
            seq![callback]
        } else {
            Seq::<Callback>::empty()
        },
    decreases names.len(),
{
    let all = to_all(names, callback);
    if names.len() == 0 {
        assert(observed(all, name) =~= Seq::<Callback>::empty());
    } else {
        let front = names.drop_last();
        assert(all.drop_last() =~= to_all(front, callback));
        assert(all.last().target == names.last());
        assert(all.last().callback == callback);
        lemma_observed_to_all(front, callback, name);
        if names.last() == name {
            assert(names[names.len() - 1] == name);
            assert(names.contains(name));
            if front.contains(name) {
                let k = choose|k: int| 0 <= k < front.len() && front[k] == name;
                assert(names[k] == name);
                assert(false);
            }
            assert(observed(all, name) =~= seq![callback]);
        } else {
            if names.contains(name) {
                let k = choose|k: int| 0 <= k < names.len() && names[k] == name;
                assert(front[k] == name);
                assert(front.contains(name));
            }
            if front.contains(name) {
                let k = choose|k: int| 0 <= k < front.len() && front[k] == name;
                assert(names[k] == name);
                assert(names.contains(name));
            }
        }
    }
}

proof fn lemma_trace_push(operations: Seq<Operation>, operation: Operation)
    ensures
        state_after(operations.push(operation)) == state_after(operations).next(operation),
        trace(operations.push(operation)) == trace(operations) + state_after(operations).emitted(
            operation,
        ),
{
    let longer = operations.push(operation);
    assert(longer.drop_last() =~= operations);
    assert(longer.last() == operation);
}

/// A name is among `names` with `added` at the end exactly if it is among
/// `names` or is `added`.
pub proof fn lemma_push_contains(names: Seq<Seq<char>>, added: Seq<char>, name: Seq<char>)
    ensures
        names.push(added).contains(name) <==> names.contains(name) || added == name,
{
    let longer = names.push(added);
    if names.contains(name) {
        let k = choose|k: int| 0 <= k < names.len() && names[k] == name;
        assert(longer[k] == name);
    }
    if added == name {
        assert(longer[names.len() as int] == name);
    }
    if longer.contains(name) {
        let k = choose|k: int| 0 <= k < longer.len() && longer[k] == name;
        if k < names.len() {
            assert(names[k] == name);
        }
    }
}

/// No operation leads out of the well-formed states.
pub proof fn lemma_step_well_formed(state: RouterState, operation: Operation)
    requires
        state.well_formed(),
    ensures
        state.next(operation).well_formed(),
{
    match operation {
        Operation::Register { name } => {
            if state.accepts(name) {
                let longer = state.names.push(name);
                assert forall|i: int, j: int|
                    0 <= i < longer.len() && 0 <= j < longer.len() && i != j implies longer[i]
                    != longer[j] by {
                    if i < state.names.len() && j < state.names.len() {
                    } else if i < state.names.len() {
                        assert(state.names.contains(state.names[i]));
                    } else {
                        assert(state.names.contains(state.names[j]));
                    }
                }
            }
        },
        _ => {},
    }
}

/// What one operation adds to the history of the extension called `name`.
proof fn lemma_step_observed(state: RouterState, operation: Operation, name: Seq<char>)
    requires
        state.well_formed(),
    ensures
        observed(state.emitted(operation), name) == match operation {
            Operation::Register { name: added } => if state.accepts(added) && added == name {
                seq![Callback::Initialize]
            } else {
                Seq::<Callback>::empty()
            },
            Operation::Broadcast { callback } => if state.registered(name) {
                seq![callback]
            } else {
                Seq::<Callback>::empty()
            },
            Operation::Targeted { name: target, callback } => if state.registered(name) && target
                == name {
                seq![callback]
            } else {
                Seq::<Callback>::empty()
            },
            Operation::Close => if state.registered(name) {
                seq![Callback::Close]
            } else {
                Seq::<Callback>::empty()
            },
        },
{
    match operation {
        Operation::Register { name: added } => {
            if state.accepts(added) {
                let first = Delivery { target: added, callback: Callback::Initialize };
                lemma_observed_one(first, name);
            }
        },
        Operation::Broadcast { callback } => {
            lemma_observed_to_all(state.names, callback, name);
        },
        Operation::Targeted { name: target, callback } => {
            if state.registered(target) {
                lemma_observed_one(Delivery { target, callback }, name);
            }
        },
        Operation::Close => {
            lemma_observed_to_all(state.names, Callback::Close, name);
        },
    }
}

/// The history of every extension, after any run of operations, has the
/// shape of [`lifecycle`]; the extension is registered exactly while its
/// history is [`live`]; and a history that ended means a router that was
/// torn down.
pub proof fn lemma_history(operations: Seq<Operation>, name: Seq<char>)
    requires
        all_valid(operations),
    ensures
        state_after(operations).well_formed(),
        lifecycle(observed(trace(operations), name)),
        state_after(operations).registered(name) <==> live(observed(trace(operations), name)),
        observed(trace(operations), name).len() > 0 && !state_after(operations).registered(name)
            ==> state_after(operations).closed,
    decreases operations.len(),
{
    if operations.len() == 0 {
        assert(observed(trace(operations), name) =~= Seq::<Callback>::empty());
    } else {
        let before = operations.drop_last();
        let operation = operations.last();
        assert(all_valid(before)) by {
            assert forall|i: int| 0 <= i < before.len() implies (#[trigger] before[i]).valid() by {
                assert(before[i] == operations[i]);
            }
        }
        assert(operation.valid());
        lemma_history(before, name);
        let state = state_after(before);
        let seen = observed(trace(before), name);
        let added = observed(state.emitted(operation), name);
        lemma_step_well_formed(state, operation);
        lemma_step_observed(state, operation, name);
        lemma_observed_concat(trace(before), state.emitted(operation), name);
        let history = observed(trace(operations), name);
        assert(history == seen + added);
        match operation {
            Operation::Register { name: fresh } => {
                if state.accepts(fresh) {
                    lemma_push_contains(state.names, fresh, name);
                    if fresh == name {
                        assert(seen.len() == 0);
                        assert(history =~= seq![Callback::Initialize]);
                    } else {
                        assert(history =~= seen);
                    }
                } else {
                    assert(history =~= seen);
                }
            },
            Operation::Broadcast { callback } => {
                if state.registered(name) {
                    assert(history =~= seen.push(callback));
                } else {
                    assert(history =~= seen);
                }
            },
            Operation::Targeted { name: target, callback } => {
                if state.registered(name) && target == name {
                    assert(history =~= seen.push(callback));
                } else {
                    assert(history =~= seen);
                }
            },
            Operation::Close => {
                if state.registered(name) {
                    assert(history =~= seen.push(Callback::Close));
                } else {
                    assert(history =~= seen);
                }
            },
        }
    }
}

/// Names are unique at all times: whatever was asked of a router, no name
/// is registered twice, and a router that was torn down holds none.
pub proof fn law_names_stay_unique(operations: Seq<Operation>)
    ensures
        state_after(operations).well_formed(),
    decreases operations.len(),
{
    if operations.len() > 0 {
        law_names_stay_unique(operations.drop_last());
        lemma_step_well_formed(state_after(operations.drop_last()), operations.last());
    }
}

/// Of two registrations under one name, at most the first succeeds: after
/// the first attempt, whatever became of it, a second one is turned down,
/// delivers nothing and leaves the router as it is.
pub proof fn law_second_registration_is_refused(state: RouterState, name: Seq<char>)
    ensures
        ({
            let attempt = Operation::Register { name };
            let after = state.next(attempt);
            &&& !after.accepts(name)
            &&& after.next(attempt) == after
            &&& after.emitted(attempt) == Seq::<Delivery>::empty()
            &&& state.accepts(name) ==> state.emitted(attempt) == seq![
                Delivery { target: name, callback: Callback::Initialize },
            ]
        }),
{
    if state.accepts(name) {
        lemma_push_contains(state.names, name, name);
    }
}

proof fn lemma_absent(history: Seq<Callback>, callback: Callback)
    requires
        forall|i: int| 0 <= i < history.len() ==> history[i] != callback,
    ensures
        occurrences(history, callback) == 0,
    decreases history.len(),
{
    if history.len() > 0 {
        lemma_absent(history.drop_last(), callback);
    }
}

proof fn lemma_only_first(history: Seq<Callback>, callback: Callback)
    requires
        history.len() > 0,
        history[0] == callback,
        forall|i: int| 0 < i < history.len() ==> history[i] != callback,
    ensures
        occurrences(history, callback) == 1,
    decreases history.len(),
{
    if history.len() == 1 {
        lemma_absent(history.drop_last(), callback);
    } else {
        lemma_only_first(history.drop_last(), callback);
    }
}

proof fn lemma_only_last(history: Seq<Callback>, callback: Callback)
    requires
        forall|i: int| 0 <= i < history.len() - 1 ==> history[i] != callback,
    ensures
        occurrences(history, callback) == if history.len() > 0 && history.last() == callback {
            1nat
        } else {
            0nat
        },
{
    if history.len() > 0 {
        lemma_absent(history.drop_last(), callback);
    }
}

proof fn lemma_registered_once_attempted(operations: Seq<Operation>, name: Seq<char>)
    requires
        never_closes(operations),
    ensures
        !state_after(operations).closed,
        attempts(operations, name) ==> state_after(operations).registered(name),
    decreases operations.len(),
{
    if operations.len() > 0 {
        let before = operations.drop_last();
        let operation = operations.last();
        assert(never_closes(before)) by {
            assert forall|i: int| 0 <= i < before.len() implies #[trigger] before[i]
                != Operation::Close by {
                assert(before[i] == operations[i]);
            }
        }
        lemma_registered_once_attempted(before, name);
        let state = state_after(before);
        assert(operation != Operation::Close);
        if attempts(operations, name) {
            let at = choose|i: int|
                0 <= i < operations.len() && #[trigger] operations[i] == (Operation::Register {
                    name,
                });
            if at < before.len() {
                assert(before[at] == operations[at]);
                assert(attempts(before, name));
            }
            match operation {
                Operation::Register { name: fresh } => {
                    if state.accepts(fresh) {
                        lemma_push_contains(state.names, fresh, name);
                    }
                },
                _ => {},
            }
        }
    }
}

/// Of all the attempts to register an extension under one name with a
/// router that is not torn down, exactly one succeeds: the extension of that
/// name is initialized once.
pub proof fn law_one_registration_succeeds(operations: Seq<Operation>, name: Seq<char>)
    requires
        all_valid(operations),
        never_closes(operations),
        attempts(operations, name),
    ensures
        state_after(operations).registered(name),
        occurrences(observed(trace(operations), name), Callback::Initialize) == 1,
{
    lemma_registered_once_attempted(operations, name);
    lemma_history(operations, name);
    lemma_only_first(observed(trace(operations), name), Callback::Initialize);
}

/// Whatever is asked of a router, no extension is initialized twice and
/// none is closed twice.
pub proof fn law_at_most_once(operations: Seq<Operation>, name: Seq<char>)
    requires
        all_valid(operations),
    ensures
        occurrences(observed(trace(operations), name), Callback::Initialize) <= 1,
        occurrences(observed(trace(operations), name), Callback::Close) <= 1,
{
    lemma_history(operations, name);
    let history = observed(trace(operations), name);
    if history.len() > 0 {
        lemma_only_first(history, Callback::Initialize);
        lemma_only_last(history, Callback::Close);
    } else {
        lemma_absent(history, Callback::Initialize);
        lemma_absent(history, Callback::Close);
    }
}

/// An extension sees `Initialize` before anything else, and sees it once.
pub proof fn law_initialize_comes_first(operations: Seq<Operation>, name: Seq<char>)
    requires
        all_valid(operations),
    ensures
        ({
            let history = observed(trace(operations), name);
            &&& history.len() > 0 ==> history[0] == Callback::Initialize
            &&& forall|i: int| 0 < i < history.len() ==> history[i] != Callback::Initialize
        }),
{
    lemma_history(operations, name);
}

/// A broadcast reaches every registered extension once, and nobody else.
pub proof fn law_broadcast_reaches_all(state: RouterState, callback: Callback, name: Seq<char>)
    requires
        state.well_formed(),
    ensures
        observed(state.emitted(Operation::Broadcast { callback }), name) == if state.registered(
            name,
        ) {
            seq![callback]
        } else {
            Seq::<Callback>::empty()
        },
        state.next(Operation::Broadcast { callback }) == state,
{
    lemma_step_observed(state, Operation::Broadcast { callback }, name);
}

/// A targeted event reaches the extension it names, once, and no other.
pub proof fn law_targeted_reaches_only_the_named(
    state: RouterState,
    target: Seq<char>,
    callback: Callback,
    name: Seq<char>,
)
    requires
        state.well_formed(),
    ensures
        observed(state.emitted(Operation::Targeted { name: target, callback }), name) == if name
            == target && state.registered(target) {
            seq![callback]
        } else {
            Seq::<Callback>::empty()
        },
        state.next(Operation::Targeted { name: target, callback }) == state,
{
    lemma_step_observed(state, Operation::Targeted { name: target, callback }, name);
}

/// An event for a name that is not registered is dropped: nothing is
/// delivered to anybody and the router stays as it is.
pub proof fn law_unknown_target_is_dropped(
    state: RouterState,
    target: Seq<char>,
    callback: Callback,
)
    requires
        !state.registered(target),
    ensures
        state.emitted(Operation::Targeted { name: target, callback }) == Seq::<Delivery>::empty(),
        state.next(Operation::Targeted { name: target, callback }) == state,
{
}

/// Targeted events for one extension arrive in the order in which the
/// router was asked to deliver them.
pub proof fn law_targeted_order_is_kept(
    operations: Seq<Operation>,
    name: Seq<char>,
    callbacks: Seq<Callback>,
)
    requires
        all_valid(operations),
        state_after(operations).registered(name),
    ensures
        state_after(operations + targeted_run(name, callbacks)) == state_after(operations),
        observed(trace(operations + targeted_run(name, callbacks)), name) == observed(
            trace(operations),
            name,
        ) + callbacks,
    decreases callbacks.len(),
{
    let run = targeted_run(name, callbacks);
    if callbacks.len() == 0 {
        assert(operations + run =~= operations);
        assert(observed(trace(operations), name) + callbacks =~= observed(
            trace(operations),
            name,
        ));
    } else {
        let front = callbacks.drop_last();
        let shorter = operations + targeted_run(name, front);
        let last = Operation::Targeted { name, callback: callbacks.last() };
        assert(operations + run =~= shorter.push(last));
        law_targeted_order_is_kept(operations, name, front);
        lemma_trace_push(shorter, last);
        let state = state_after(shorter);
        lemma_history(operations, name);
        lemma_step_observed(state, last, name);
        lemma_observed_concat(trace(shorter), state.emitted(last), name);
        assert((observed(trace(operations), name) + front) + seq![callbacks.last()] =~= observed(
            trace(operations),
            name,
        ) + callbacks);
    }
}

/// Tearing the router down reaches every registered extension with one
/// `Close`, and nobody else; the router then holds nothing and is closed.
pub proof fn law_close_reaches_all_once(state: RouterState, name: Seq<char>)
    requires
        state.well_formed(),
    ensures
        observed(state.emitted(Operation::Close), name) == if state.registered(name) {
            seq![Callback::Close]
        } else {
            Seq::<Callback>::empty()
        },
        state.next(Operation::Close).closed,
        !state.next(Operation::Close).registered(name),
{
    lemma_step_observed(state, Operation::Close, name);
}

/// After the teardown nothing is delivered any more, whatever is asked of
/// the router, and the router stays closed.
pub proof fn law_nothing_after_close(state: RouterState, operation: Operation)
    requires
        state.well_formed(),
        state.closed,
    ensures
        state.emitted(operation) == Seq::<Delivery>::empty(),
        state.next(operation) == state,
{
    assert(state.names =~= Seq::<Seq<char>>::empty());
    assert(to_all(state.names, Callback::Close) =~= Seq::<Delivery>::empty());
    match operation {
        Operation::Broadcast { callback } => {
            assert(to_all(state.names, callback) =~= Seq::<Delivery>::empty());
        },
        _ => {},
    }
}

/// Over the whole life of a router, an extension sees `Close` at most once,
/// and nothing after it.
pub proof fn law_close_comes_last(operations: Seq<Operation>, name: Seq<char>)
    requires
        all_valid(operations),
    ensures
        ({
            let history = observed(trace(operations), name);
            forall|i: int| 0 <= i < history.len() - 1 ==> history[i] != Callback::Close
        }),
{
    lemma_history(operations, name);
}

} // verus!
