//! Shared ownership and locking, as far as the router needs them.
//!
//! Nothing in this file is proved. Each item stands for one operation of the
//! standard library or of `parking_lot`, and says what it takes on trust.

use std::sync::mpsc::Sender;
use std::sync::Arc;
use std::sync::Weak;

use parking_lot::lock_api::RwLock;
use parking_lot::lock_api::RwLockReadGuard;
use parking_lot::lock_api::RwLockWriteGuard;
use parking_lot::RawRwLock;
use vstd::prelude::*;

use crate::command::Command;

verus! {

/// `std::sync::mpsc::Sender`: the sending half of an ordered channel with
/// many producers. Opaque to the verifier.
#[verifier::external_type_specification]
#[verifier::external_body]
#[verifier::reject_recursive_types(T)]
pub struct ExSender<T>(Sender<T>);

/// `parking_lot::RawRwLock`: the lock word behind [`RwLock`]. Opaque to the
/// verifier.
#[verifier::external_type_specification]
#[verifier::external_body]
pub struct ExRawRwLock(RawRwLock);

/// `lock_api::RwLock`, which `parking_lot::RwLock` is an alias of: a
/// reader-writer lock around a value. Opaque to the verifier: what a lock
/// holds is decided by whoever wrote to it last.
#[verifier::external_type_specification]
#[verifier::external_body]
#[verifier::reject_recursive_types(R)]
#[verifier::reject_recursive_types(T)]
pub struct ExRwLock<R, T: ?Sized>(RwLock<R, T>);

/// A `std::sync::Weak` pointer: it names a shared value without keeping it
/// alive. Opaque to the verifier.
#[verifier::external_body]
#[verifier::reject_recursive_types(T)]
pub struct WeakRef<T> {
    inner: Weak<T>,
}

/// A `parking_lot::RwLockReadGuard`: shared access to the value in a lock,
/// given up when the guard is dropped. Opaque to the verifier.
#[verifier::external_body]
#[verifier::reject_recursive_types(T)]
pub struct ReadGuard<'a, T> {
    inner: RwLockReadGuard<'a, RawRwLock, T>,
}

/// A `parking_lot::RwLockWriteGuard`: exclusive access to the value in a
/// lock, given up when the guard is dropped. Opaque to the verifier.
#[verifier::external_body]
#[verifier::reject_recursive_types(T)]
pub struct WriteGuard<'a, T> {
    inner: RwLockWriteGuard<'a, RawRwLock, T>,
}

/// `Arc::downgrade`: a weak pointer to the value behind `strong`. Nothing is
/// claimed of the result.
#[verifier::external_body]
pub(crate) fn downgrade<T>(strong: &Arc<T>) -> (weak: WeakRef<T>) {
    WeakRef { inner: Arc::downgrade(strong) }
}

/// `Weak::upgrade`: the value behind `weak` if some owner still keeps it
/// alive, `None` once it was destroyed. Which of the two comes back depends
/// on the other owners, so nothing is claimed of the result.
#[verifier::external_body]
pub(crate) fn upgrade<T>(weak: &WeakRef<T>) -> (strong: Option<Arc<T>>) {
    weak.inner.upgrade()
}

/// `Sender::send`: hands `command` to the channel. The answer is `true` when
/// the channel took it and `false` when the receiving half is gone; which of
/// the two depends on the receiver, so nothing is claimed of the result.
#[verifier::external_body]
pub(crate) fn enqueue(channel: &Sender<Command>, command: Command) -> (accepted: bool) {
    channel.send(command).is_ok()
}

/// `RwLock::new`: a lock that holds `value`. Nothing is claimed of the
/// result.
#[verifier::external_body]
pub(crate) fn new_lock<T>(value: T) -> (lock: RwLock<RawRwLock, T>) {
    RwLock::new(value)
}

/// `RwLock::read`: waits until no writer holds `lock`, then returns shared
/// access to it. A thread that holds the lock already may wait forever: the
/// callers in this crate take the lock once and give it up before they
/// return. Nothing is claimed of the result.
#[verifier::external_body]
pub(crate) fn read_guard<'a, T>(lock: &'a RwLock<RawRwLock, T>) -> (guard: ReadGuard<'a, T>) {
    ReadGuard { inner: lock.read() }
}

/// `RwLock::write`: waits until nobody else holds `lock`, then returns
/// exclusive access to it. A thread that holds the lock already waits
/// forever: the callers in this crate take the lock once and give it up
/// before they return. Nothing is claimed of the result.
#[verifier::external_body]
pub(crate) fn write_guard<'a, T>(lock: &'a RwLock<RawRwLock, T>) -> (guard: WriteGuard<'a, T>) {
    WriteGuard { inner: lock.write() }
}

/// `Deref::deref` of a read guard: the value in the lock. Nothing is claimed
/// of the result.
#[verifier::external_body]
pub(crate) fn borrow<'a, 'b, T>(guard: &'b ReadGuard<'a, T>) -> (value: &'b T) {
    &*guard.inner
}

/// `DerefMut::deref_mut` of a write guard: the value in the lock, open to
/// change. Nothing is claimed of the result.
#[verifier::external_body]
pub(crate) fn borrow_mut<'a, 'b, T>(guard: &'b mut WriteGuard<'a, T>) -> (value: &'b mut T) {
    &mut *guard.inner
}

} // verus!
