//! The decisions of the lock: what each operation does to the state word
//! inside one critical section, and whom it has to wake afterwards.

use vstd::prelude::*;
use crate::state::{LockState, StateWord, MAX_READERS};

verus! {

/// Whom an operation wakes once it has changed the state.
#[derive(Clone, Copy, Debug, PartialEq, Eq, Structural)]
pub enum Signal {
    /// Nobody.
    Nothing,
    /// The announced writer that waits for the readers to drain.
    WakeWriter,
    /// One thread that waits for a reader slot or for the flag to clear.
    WakeOne,
    /// Every thread that waits for a reader slot or for the flag to clear.
    WakeAll,
}

/// What a thread that wants the lock may have to sleep for.
#[derive(Clone, Copy, Debug, PartialEq, Eq, Structural)]
pub enum Wait {
    /// A would-be reader: for the writer flag to clear and a reader slot to
    /// be free.
    ToRead,
    /// A would-be writer: for the writer flag to clear, so that it can
    /// announce itself.
    ToAnnounce,
    /// An announced writer: for the readers to leave.
    ToDrain,
}

impl LockState {
    /// The state of a lock that nobody holds or wants.
    pub open spec fn idle() -> LockState {
        LockState { writer_active: false, readers: 0 }
    }

    /// The state a writer holds the lock in: flag set, no readers.
    pub open spec fn write_held(self) -> bool {
        self.writer_active && self.readers == 0
    }

    /// A would-be reader waits while a writer is pending or active, or while
    /// every reader slot is taken.
    pub open spec fn reader_must_wait(self) -> bool {
        self.writer_active || self.readers >= MAX_READERS
    }

    /// A would-be writer waits to announce itself while another writer is
    /// pending or active.
    pub open spec fn writer_must_wait(self) -> bool {
        self.writer_active
    }

    /// An announced writer waits while readers remain.
    pub open spec fn writer_must_drain(self) -> bool {
        self.readers > 0
    }

    /// Whether a thread has to go on sleeping in this state.
    pub open spec fn must_wait(self, wait: Wait) -> bool {
        match wait {
            Wait::ToRead => self.reader_must_wait(),
            Wait::ToAnnounce => self.writer_must_wait(),
            Wait::ToDrain => self.writer_must_drain(),
        }
    }

    /// The state with one reader more.
    pub open spec fn with_reader(self) -> LockState {
        LockState { writer_active: self.writer_active, readers: self.readers + 1 }
    }

    /// The state with one reader fewer.
    pub open spec fn without_reader(self) -> LockState {
        LockState { writer_active: self.writer_active, readers: (self.readers - 1) as nat }
    }

    /// The state with the writer flag set.
    pub open spec fn announced(self) -> LockState {
        LockState { writer_active: true, readers: self.readers }
    }

    /// Whom a reader wakes when it leaves this state: the announced writer if
    /// it was the last reader in its way, else one waiting thread if it frees
    /// the only slot, else nobody.
    pub open spec fn read_release_signal(self) -> Signal {
        if self.writer_active && self.readers == 1 {
            Signal::WakeWriter
        } else if self.readers == MAX_READERS {
            Signal::WakeOne
        } else {
            Signal::Nothing
        }
    }
}

/// Whether a signal reaches the threads that sleep for the given reason.
/// Would-be readers and would-be writers sleep on one channel, which is woken
/// one thread at a time or all at once; an announced writer sleeps alone on
/// the other.
pub open spec fn reaches(signal: Signal, wait: Wait) -> bool {
    match wait {
        Wait::ToRead => signal == Signal::WakeOne || signal == Signal::WakeAll,
        Wait::ToAnnounce => signal == Signal::WakeOne || signal == Signal::WakeAll,
        Wait::ToDrain => signal == Signal::WakeWriter,
    }
}

/// No wake-up is lost when a reader leaves: if its leaving ends a wait, the
/// signal it gives reaches the threads that sleep for that reason. (Only an
/// announced writer sleeps for the readers to leave.)
pub proof fn law_read_release_wakes_whom_it_lets_in(state: LockState, wait: Wait)
    requires
        0 < state.readers <= MAX_READERS,
        wait == Wait::ToDrain ==> state.writer_active,
        state.must_wait(wait),
        !state.without_reader().must_wait(wait),
    ensures
        reaches(state.read_release_signal(), wait),
{
}

/// No wake-up is lost when the writer leaves: whatever wait its leaving ends,
/// the signal it gives reaches the threads that sleep for that reason.
pub proof fn law_write_release_wakes_whom_it_lets_in(state: LockState, wait: Wait)
    requires
        state.write_held(),
        state.must_wait(wait),
        !LockState::idle().must_wait(wait),
    ensures
        reaches(Signal::WakeAll, wait),
{
}

/// A reader that leaves a lock which was not full, and is not the last one
/// in the way of an announced writer, wakes nobody.
pub proof fn law_read_release_is_quiet_otherwise(state: LockState)
    requires
        0 < state.readers < MAX_READERS,
        !(state.writer_active && state.readers == 1),
    ensures
        state.read_release_signal() == Signal::Nothing,
{
}

/// Taking a reader slot and giving it back leaves the state as it was.
pub proof fn law_release_undoes_read(state: LockState)
    ensures
        state.with_reader().without_reader() == state,
{
}

/// While the writer flag is set, every would-be reader and every would-be
/// writer has to wait.
pub proof fn law_flag_keeps_newcomers_out(state: LockState)
    requires
        state.writer_active,
    ensures
        state.must_wait(Wait::ToRead),
        state.must_wait(Wait::ToAnnounce),
{
}

/// The write lock is taken without a wait only on an idle lock, and is then
/// held: the flag is set and no reader is in.
pub proof fn law_write_without_wait_only_when_idle(state: LockState)
    requires
        !state.must_wait(Wait::ToAnnounce),
        !state.must_wait(Wait::ToDrain),
    ensures
        state == LockState::idle(),
        state.announced().write_held(),
{
}

impl StateWord {
    /// Whether a thread has to go on sleeping in this state.
    pub fn must_wait(self, wait: Wait) -> (b: bool)
        ensures
            b == self@.must_wait(wait),
    {
        match wait {
            Wait::ToRead => self.is_writer_active() || self.at_max_readers(),
            Wait::ToAnnounce => self.is_writer_active(),
            Wait::ToDrain => self.readers() != 0,
        }
    }

    /// The acquire half of a read lock, for a state in which no wait is due:
    /// takes a reader slot.
    pub fn enter_read(&mut self)
        requires
            !old(self)@.reader_must_wait(),
        ensures
            final(self)@ == old(self)@.with_reader(),
    {
        self.add_reader();
    }

    /// The first acquire half of a write lock, for a state in which no other
    /// writer is announced: sets the flag, which keeps new readers out.
    /// Returns whether readers remain that the writer has to wait for.
    pub fn announce_write(&mut self) -> (drain: bool)
        requires
            !old(self)@.writer_must_wait(),
        ensures
            final(self)@ == old(self)@.announced(),
            drain == old(self)@.writer_must_drain(),
            !drain ==> final(self)@.write_held(),
    {
        self.set_writer_active();
        self.readers() != 0
    }

    /// Takes a read lock if that needs no wait. Returns whether it did; if
    /// not, the state is as it was.
    pub fn try_read(&mut self) -> (taken: bool)
        ensures
            taken == !old(self)@.reader_must_wait(),
            taken ==> final(self)@ == old(self)@.with_reader(),
            !taken ==> *final(self) == *old(self),
    {
        if self.must_wait(Wait::ToRead) {
            false
        } else {
            self.enter_read();
            true
        }
    }

    /// Takes the write lock if that needs no wait: no writer is announced and
    /// no reader is in. Returns whether it did; if not, the state is as it was.
    pub fn try_write(&mut self) -> (taken: bool)
        ensures
            taken == (!old(self)@.writer_must_wait() && !old(self)@.writer_must_drain()),
            taken ==> final(self)@ == old(self)@.announced() && final(self)@.write_held(),
            !taken ==> *final(self) == *old(self),
    {
        if self.must_wait(Wait::ToAnnounce) || self.must_wait(Wait::ToDrain) {
            false
        } else {
            self.set_writer_active();
            true
        }
    }

    /// The release half of a read lock: gives the slot back and says whom to
    /// wake.
    pub fn release_read(&mut self) -> (signal: Signal)
        requires
            old(self)@.readers > 0,
        ensures
            final(self)@ == old(self)@.without_reader(),
            signal == old(self)@.read_release_signal(),
        opens_invariants none
        no_unwind
    {
        let full: bool = self.at_max_readers();
        self.remove_reader();
        if self.is_writer_active() && self.readers() == 0 {
            Signal::WakeWriter
        } else if full {
            Signal::WakeOne
        } else {
            Signal::Nothing
        }
    }

    /// The release half of the write lock: wipes the word and wakes every
    /// waiting thread, writers and readers alike.
    pub fn release_write(&mut self) -> (signal: Signal)
        ensures
            final(self)@ == LockState::idle(),
            signal == Signal::WakeAll,
        opens_invariants none
        no_unwind
    {
        self.clear_all();
        Signal::WakeAll
    }
}

} // verus!
