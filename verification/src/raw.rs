//! The raw lock: the state word under an internal mutex, with two waiting
//! channels.
//!
//! Every operation is one or more critical sections on the internal mutex.
//! Inside a critical section the word is loaded, a decision of
//! [`crate::machine`] is applied to it, the word is stored, and the threads
//! that the decision names are woken. Between critical sections a thread
//! sleeps on a condition variable, which gives the internal mutex up for that
//! time and takes it again on waking.
//!
//! The internal mutex keeps a poison mark of its own, which it sets when a
//! thread panics inside a critical section. Nothing in this library panics
//! there; a caller's condition variable may, if it is also in use with
//! another lock. The mark is never consulted: the word is stored whole, so
//! it is sound whenever the mutex is free, and a lock whose release could
//! fail would be worse than one that goes on.
//!
//! What other threads do to the word between two critical sections is not
//! visible here, so the operations promise of the word only what holds at the
//! moment they give the internal mutex up. What holds of the lock over time is
//! stated in [`crate::protocol`].

use vstd::prelude::*;
use std::sync::{Condvar, Mutex, MutexGuard};
use crate::machine::{Signal, Wait};
use crate::state::{LockState, StateWord, MAX_READERS};

verus! {

/// `std::sync::Mutex`, carried as an opaque value.
#[verifier::external_type_specification]
#[verifier::external_body]
#[verifier::reject_recursive_types(T)]
pub struct ExMutex<T: ?Sized>(Mutex<T>);

/// `std::sync::MutexGuard`, carried as an opaque value.
#[verifier::external_type_specification]
#[verifier::external_body]
#[verifier::reject_recursive_types(T)]
pub struct ExMutexGuard<'a, T: ?Sized + 'a>(MutexGuard<'a, T>);

/// `std::sync::Condvar`, carried as an opaque value.
#[verifier::external_type_specification]
#[verifier::external_body]
pub struct ExCondvar(Condvar);

/// What the state word says that a held guard of the internal mutex gives
/// access to.
pub uninterp spec fn guarded(guard: MutexGuard<StateWord>) -> LockState;

/// What the state word said that the internal mutex was made around: the
/// state that the lock began in, not the one it is in now.
pub uninterp spec fn made_with(mutex: Mutex<StateWord>) -> LockState;

/// `Mutex::new`: an unlocked mutex around the given word, which is the word
/// that the first thread to lock it finds.
#[verifier::external_body]
fn new_state_mutex(word: StateWord) -> (m: Mutex<StateWord>)
    ensures
        made_with(m) == word@,
{
    Mutex::new(word)
}

/// `Condvar::new`: a condition variable. Nothing is claimed of it.
#[verifier::external_body]
fn new_condvar() -> (cv: Condvar) {
    Condvar::new()
}

/// `Mutex::lock`: blocks until the mutex is free and returns its guard. Where
/// the call reports the mutex poisoned, the guard is taken out of the error.
/// Nothing is claimed of the word found. The library never calls this while
/// the calling thread holds the guard.
#[verifier::external_body]
fn lock_state<'a>(m: &'a Mutex<StateWord>) -> (guard: MutexGuard<'a, StateWord>)
    opens_invariants none
    no_unwind
{
    match m.lock() {
        Ok(guard) => guard,
        Err(poisoned) => poisoned.into_inner(),
    }
}

/// Reading through `MutexGuard`'s `Deref`: the word under the guard.
#[verifier::external_body]
fn load(guard: &MutexGuard<StateWord>) -> (word: StateWord)
    ensures
        word@ == guarded(*guard),
    opens_invariants none
    no_unwind
{
    **guard
}

/// Writing through `MutexGuard`'s `DerefMut`: the word under the guard is
/// afterwards the one given.
#[verifier::external_body]
fn store(guard: &mut MutexGuard<StateWord>, word: StateWord)
    ensures
        guarded(*final(guard)) == word@,
    opens_invariants none
    no_unwind
{
    **guard = word;
}

/// `Condvar::wait`: gives the guard's mutex up, sleeps until notified (or
/// woken spuriously), and takes the mutex again. Where the call reports the
/// mutex poisoned, the guard is taken out of the error. Other threads may
/// have changed the word meanwhile, so nothing is claimed of it. The call may
/// panic if the condition variable is in use with another mutex; nothing
/// here can tell whether it is.
#[verifier::external_body]
fn wait<'a>(cv: &Condvar, guard: MutexGuard<'a, StateWord>) -> (woken: MutexGuard<'a, StateWord>) {
    match cv.wait(guard) {
        Ok(woken) => woken,
        Err(poisoned) => poisoned.into_inner(),
    }
}

/// `Condvar::wait_while`, with [`StateWord::must_wait`] as its predicate:
/// sleeps on the condition variable for as long as the word under the guard
/// says that the wait goes on, testing it first and after every wake-up with
/// the mutex held. On return the wait is over for the word under the returned
/// guard; if it was over to begin with, no sleep took place and the word is
/// the one that came in. Where the call reports the mutex poisoned, it has
/// come back after a sleep without testing the word: the guard is taken out
/// of the error and the call made again, which begins with that test.
#[verifier::external_body]
fn wait_while<'a>(cv: &Condvar, guard: MutexGuard<'a, StateWord>, wait: Wait) -> (woken: MutexGuard<
    'a,
    StateWord,
>)
    ensures
        !guarded(woken).must_wait(wait),
        !guarded(guard).must_wait(wait) ==> guarded(woken) == guarded(guard),
{
    let mut held = guard;
    loop {
        match cv.wait_while(held, |word| word.must_wait(wait)) {
            Ok(woken) => return woken,
            Err(poisoned) => held = poisoned.into_inner(),
        }
    }
}

/// `Condvar::notify_one`: wakes one thread that sleeps on the condition
/// variable, if there is one. It returns nothing.
#[verifier::external_body]
fn notify_one(cv: &Condvar)
    opens_invariants none
    no_unwind
{
    cv.notify_one();
}

/// `Condvar::notify_all`: wakes every thread that sleeps on the condition
/// variable. It returns nothing.
#[verifier::external_body]
fn notify_all(cv: &Condvar)
    opens_invariants none
    no_unwind
{
    cv.notify_all();
}

/// `std::ptr::eq`: whether two references point at the same object. An object
/// is equal to itself, so two references to the same lock see equal locks.
#[verifier::external_body]
fn same_object(a: &RawSharedMutex, b: &RawSharedMutex) -> (same: bool)
    ensures
        same ==> *a == *b,
{
    std::ptr::eq(a, b)
}

/// A readers-writer lock without data: callers take and give back read and
/// write tickets, and may trade a ticket for a sleep on a condition variable
/// of their own followed by a ticket of either kind.
#[derive(Debug)]
pub struct RawSharedMutex {
    state: Mutex<StateWord>,
    readers: Condvar,
    both: Condvar,
}

impl RawSharedMutex {
    /// The state that the lock began in.
    pub closed spec fn initial_state(&self) -> LockState {
        made_with(self.state)
    }

    /// A lock that nobody holds: it begins idle, with the flag clear and no
    /// reader counted.
    pub fn new() -> (m: RawSharedMutex)
        ensures
            m.initial_state() == LockState::idle(),
    {
        RawSharedMutex {
            state: new_state_mutex(StateWord::new()),
            readers: new_condvar(),
            both: new_condvar(),
        }
    }

    /// Whether `other` is this very lock, not merely one in the same state.
    pub fn is(&self, other: &RawSharedMutex) -> (same: bool)
        ensures
            same ==> *self == *other,
    {
        same_object(self, other)
    }

    /// Takes a read ticket, sleeping while a writer is pending or active or
    /// every reader slot is taken.
    pub fn read(&self) {
        let entered = lock_state(&self.state);
        let _held = self.read_from(entered);
    }

    /// Takes a read ticket if that needs no sleep. Returns whether it did.
    pub fn try_read(&self) -> (taken: bool) {
        let entered = lock_state(&self.state);
        let (_held, taken) = self.try_read_from(entered);
        taken
    }

    /// Takes the write ticket: sleeps while another writer is pending or
    /// active, announces itself, and sleeps until the readers have left.
    pub fn write(&self) {
        let entered = lock_state(&self.state);
        let _held = self.write_from(entered);
    }

    /// Takes the write ticket if that needs no sleep. Returns whether it did.
    pub fn try_write(&self) -> (taken: bool) {
        let entered = lock_state(&self.state);
        let (_held, taken) = self.try_write_from(entered);
        taken
    }

    /// Gives a read ticket back. On a lock that counts no reader this does
    /// nothing.
    pub fn unlock_read(&self)
        opens_invariants none
        no_unwind
    {
        let entered = lock_state(&self.state);
        let _released = self.release_read_from(entered);
    }

    /// Gives the write ticket back.
    pub fn unlock_write(&self)
        opens_invariants none
        no_unwind
    {
        let entered = lock_state(&self.state);
        let _released = self.release_write_from(entered);
    }

    /// Trades a read ticket for a sleep on `cond` and then the write ticket.
    /// The ticket is given back and the sleep begun in one critical section:
    /// the internal mutex is not given up in between, so no notification of
    /// `cond` that follows the release can be missed. `cond` must not be in
    /// use with any other lock.
    pub fn wait_from_read_to_write(&self, cond: &Condvar) {
        let entered = lock_state(&self.state);
        let released = self.release_read_from(entered);
        let woken = wait(cond, released);
        let _held = self.write_from(woken);
    }

    /// Trades a read ticket for a sleep on `cond` and then a read ticket, in
    /// the same way. `cond` must not be in use with any other lock.
    pub fn wait_from_read_to_read(&self, cond: &Condvar) {
        let entered = lock_state(&self.state);
        let released = self.release_read_from(entered);
        let woken = wait(cond, released);
        let _held = self.read_from(woken);
    }

    /// Trades the write ticket for a sleep on `cond` and then a read ticket,
    /// in the same way. `cond` must not be in use with any other lock.
    pub fn wait_from_write_to_read(&self, cond: &Condvar) {
        let entered = lock_state(&self.state);
        let released = self.release_write_from(entered);
        let woken = wait(cond, released);
        let _held = self.read_from(woken);
    }

    /// Trades the write ticket for a sleep on `cond` and then the write
    /// ticket again, in the same way. `cond` must not be in use with any
    /// other lock.
    pub fn wait_from_write_to_write(&self, cond: &Condvar) {
        let entered = lock_state(&self.state);
        let released = self.release_write_from(entered);
        let woken = wait(cond, released);
        let _held = self.write_from(woken);
    }

    /// The acquire half of a read lock, inside a critical section that is
    /// already open. When it returns, the word under the guard counts the
    /// caller and shows no writer; had no sleep been due, it is the incoming
    /// word with one reader more.
    fn read_from<'a>(&self, guard: MutexGuard<'a, StateWord>) -> (held: MutexGuard<'a, StateWord>)
        ensures
            !guarded(held).writer_active,
            guarded(held).readers >= 1,
            !guarded(guard).reader_must_wait() ==> guarded(held) == guarded(guard).with_reader(),
    {
        let mut held = wait_while(&self.both, guard, Wait::ToRead);
        let mut word: StateWord = load(&held);
        word.enter_read();
        store(&mut held, word);
        held
    }

    /// A read lock without a sleep, inside a critical section that is already
    /// open: exactly the decision of [`StateWord::try_read`] on the word
    /// under the guard.
    fn try_read_from<'a>(&self, guard: MutexGuard<'a, StateWord>) -> (out: (
        MutexGuard<'a, StateWord>,
        bool,
    ))
        ensures
            out.1 == !guarded(guard).reader_must_wait(),
            out.1 ==> guarded(out.0) == guarded(guard).with_reader(),
            !out.1 ==> guarded(out.0) == guarded(guard),
    {
        let mut held = guard;
        let mut word: StateWord = load(&held);
        let taken: bool = word.try_read();
        store(&mut held, word);
        (held, taken)
    }

    /// The acquire half of the write lock, inside a critical section that is
    /// already open. When it returns, the word under the guard counts no
    /// reader; had no sleep been due, it is the incoming word with the flag
    /// set.
    fn write_from<'a>(&self, guard: MutexGuard<'a, StateWord>) -> (held: MutexGuard<'a, StateWord>)
        ensures
            guarded(held).readers == 0,
            !guarded(guard).writer_must_wait() && !guarded(guard).writer_must_drain()
                ==> guarded(held) == guarded(guard).announced(),
    {
        let mut announced = wait_while(&self.both, guard, Wait::ToAnnounce);
        let mut word: StateWord = load(&announced);
        let _ = word.announce_write();
        store(&mut announced, word);
        wait_while(&self.readers, announced, Wait::ToDrain)
    }

    /// The write lock without a sleep, inside a critical section that is
    /// already open: exactly the decision of [`StateWord::try_write`] on the
    /// word under the guard.
    fn try_write_from<'a>(&self, guard: MutexGuard<'a, StateWord>) -> (out: (
        MutexGuard<'a, StateWord>,
        bool,
    ))
        ensures
            out.1 == (!guarded(guard).writer_must_wait() && !guarded(guard).writer_must_drain()),
            out.1 ==> guarded(out.0) == guarded(guard).announced() && guarded(out.0).write_held(),
            !out.1 ==> guarded(out.0) == guarded(guard),
    {
        let mut held = guard;
        let mut word: StateWord = load(&held);
        let taken: bool = word.try_write();
        store(&mut held, word);
        (held, taken)
    }

    /// The release half of a read lock, inside a critical section that is
    /// already open and stays open: the word under the guard loses one
    /// reader, and whoever that lets in is woken. A word that counts no
    /// reader is left as it is.
    fn release_read_from<'a>(&self, guard: MutexGuard<'a, StateWord>) -> (released: MutexGuard<
        'a,
        StateWord,
    >)
        ensures
            guarded(guard).readers > 0 ==> guarded(released) == guarded(guard).without_reader(),
            guarded(guard).readers == 0 ==> guarded(released) == guarded(guard),
        opens_invariants none
        no_unwind
    {
        let mut released = guard;
        let mut word: StateWord = load(&released);
        if word.readers() != 0 {
            let signal = word.release_read();
            store(&mut released, word);
            self.deliver(signal);
        }
        released
    }

    /// The release half of the write lock, inside a critical section that is
    /// already open and stays open: the word under the guard is wiped, and
    /// every waiting thread is woken.
    fn release_write_from<'a>(&self, guard: MutexGuard<'a, StateWord>) -> (released: MutexGuard<
        'a,
        StateWord,
    >)
        ensures
            guarded(released) == LockState::idle(),
        opens_invariants none
        no_unwind
    {
        let mut released = guard;
        let mut word: StateWord = load(&released);
        let signal = word.release_write();
        store(&mut released, word);
        self.deliver(signal);
        released
    }

    /// Wakes the threads that a decision names.
    fn deliver(&self, signal: Signal)
        opens_invariants none
        no_unwind
    {
        match signal {
            Signal::Nothing => {},
            Signal::WakeWriter => notify_one(&self.readers),
            Signal::WakeOne => notify_one(&self.both),
            Signal::WakeAll => notify_all(&self.both),
        }
    }
}

} // verus!
