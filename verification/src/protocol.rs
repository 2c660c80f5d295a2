//! The lock as a transition system, and what holds of every schedule.
//!
//! A schedule is the order in which the critical sections of all threads take
//! place. Each critical section that changes the lock is one [`Event`]. The
//! system keeps, beside the state word, the tickets that are out: how many
//! threads hold the lock for reading, whether one holds it for writing, and
//! whether a writer has announced itself and waits for the readers to leave.
//! An event changes the word exactly as the decision of [`crate::machine`]
//! that performs it.

use vstd::prelude::*;
use crate::machine::Wait;
use crate::state::{LockState, MAX_READERS};

verus! {

/// One critical section that changes the lock.
pub enum Event {
    /// A would-be reader finds no wait due and takes a slot.
    AcquireRead,
    /// A would-be writer finds no other writer and sets the flag.
    AnnounceWrite,
    /// The announced writer finds no reader left and holds the lock.
    EnterWrite,
    /// A read holder gives its slot back.
    ReleaseRead,
    /// The write holder wipes the word.
    ReleaseWrite,
}

/// The mode of a ticket.
pub enum Mode {
    Read,
    Write,
}

/// The state word together with the tickets that are out.
pub struct Lock {
    /// What the state word says.
    pub word: LockState,
    /// The number of threads that hold the lock for reading.
    pub read_tickets: nat,
    /// Whether a thread holds the lock for writing.
    pub write_ticket: bool,
    /// Whether a writer has announced itself and not yet entered.
    pub pending_writer: bool,
}

impl Lock {
    /// A new lock: the word is zero and no ticket is out.
    pub open spec fn initial() -> Lock {
        Lock {
            word: LockState::idle(),
            read_tickets: 0,
            write_ticket: false,
            pending_writer: false,
        }
    }

    /// Whether the event can take place in this state: an acquiring thread
    /// has passed its wait predicate, a releasing thread holds what it
    /// releases.
    pub open spec fn enabled(self, event: Event) -> bool {
        match event {
            Event::AcquireRead => !self.word.reader_must_wait(),
            Event::AnnounceWrite => !self.word.writer_must_wait(),
            Event::EnterWrite => self.pending_writer && !self.word.writer_must_drain(),
            Event::ReleaseRead => self.read_tickets > 0 && self.word.readers > 0,
            Event::ReleaseWrite => self.write_ticket,
        }
    }

    /// The state after the event.
    pub open spec fn next(self, event: Event) -> Lock {
        match event {
            Event::AcquireRead => Lock {
                word: self.word.with_reader(),
                read_tickets: self.read_tickets + 1,
                ..self
            },
            Event::AnnounceWrite => Lock {
                word: self.word.announced(),
                pending_writer: true,
                ..self
            },
            Event::EnterWrite => Lock { write_ticket: true, pending_writer: false, ..self },
            Event::ReleaseRead => Lock {
                word: self.word.without_reader(),
                read_tickets: (self.read_tickets - 1) as nat,
                ..self
            },
            Event::ReleaseWrite => Lock {
                word: LockState::idle(),
                write_ticket: false,
                ..self
            },
        }
    }

    /// Whether every event of the schedule can take place in the state that
    /// the events before it lead to.
    pub open spec fn admits(self, schedule: Seq<Event>) -> bool
        decreases schedule.len(),
    {
        schedule.len() == 0 || (self.admits(schedule.drop_last()) && self.run(
            schedule.drop_last(),
        ).enabled(schedule.last()))
    }

    /// The state after the whole schedule.
    pub open spec fn run(self, schedule: Seq<Event>) -> Lock
        decreases schedule.len(),
    {
        if schedule.len() == 0 {
            self
        } else {
            self.run(schedule.drop_last()).next(schedule.last())
        }
    }

    /// The word counts exactly the read tickets that are out.
    pub open spec fn counts_readers(self) -> bool {
        self.word.readers == self.read_tickets
    }

    /// The reader count is within the capacity of the word.
    pub open spec fn within_capacity(self) -> bool {
        self.word.readers <= MAX_READERS
    }

    /// The flag is set exactly while one writer holds the lock or is about
    /// to, never both.
    pub open spec fn flag_has_one_owner(self) -> bool {
        &&& self.word.writer_active == (self.write_ticket || self.pending_writer)
        &&& !(self.write_ticket && self.pending_writer)
    }

    /// No reader is in while a thread holds the lock for writing.
    pub open spec fn writer_excludes_readers(self) -> bool {
        self.word.readers == 0 || !self.write_ticket
    }

    /// All of the above.
    pub open spec fn consistent(self) -> bool {
        &&& self.counts_readers()
        &&& self.within_capacity()
        &&& self.flag_has_one_owner()
        &&& self.writer_excludes_readers()
    }

    /// Whether a ticket of the given mode is out.
    pub open spec fn holds(self, mode: Mode) -> bool {
        match mode {
            Mode::Read => self.read_tickets > 0,
            Mode::Write => self.write_ticket,
        }
    }
}

/// The event by which a ticket of the given mode is given back.
pub open spec fn release_of(mode: Mode) -> Event {
    match mode {
        Mode::Read => Event::ReleaseRead,
        Mode::Write => Event::ReleaseWrite,
    }
}

/// The schedule of one trade of a ticket for a sleep and a new ticket, as the
/// lock sees it: the release of the old ticket, whatever other threads do
/// while the caller sleeps, and the acquisition in the new mode. For a write
/// ticket that is the announcement, whatever other threads do while the
/// readers drain, and the entry.
pub open spec fn transition(from: Mode, to: Mode, asleep: Seq<Event>, draining: Seq<Event>) -> Seq<
    Event,
> {
    seq![release_of(from)] + asleep + match to {
        Mode::Read => seq![Event::AcquireRead],
        Mode::Write => seq![Event::AnnounceWrite] + draining + seq![Event::EnterWrite],
    }
}

/// How often an event occurs in a schedule.
pub open spec fn occurrences(schedule: Seq<Event>, event: Event) -> nat
    decreases schedule.len(),
{
    if schedule.len() == 0 {
        0
    } else {
        occurrences(schedule.drop_last(), event) + if schedule.last() == event {
            1nat
        } else {
            0nat
        }
    }
}

/// Each event is one decision of the lock: it can take place exactly where
/// the decision finds no wait due, and it changes the word exactly as the
/// decision does.
pub proof fn law_events_are_decisions(lock: Lock)
    ensures
        lock.enabled(Event::AcquireRead) == !lock.word.must_wait(Wait::ToRead),
        lock.next(Event::AcquireRead).word == lock.word.with_reader(),
        lock.enabled(Event::AnnounceWrite) == !lock.word.must_wait(Wait::ToAnnounce),
        lock.next(Event::AnnounceWrite).word == lock.word.announced(),
        lock.enabled(Event::EnterWrite) == (lock.pending_writer && !lock.word.must_wait(
            Wait::ToDrain,
        )),
        lock.next(Event::EnterWrite).word == lock.word,
        lock.next(Event::ReleaseRead).word == lock.word.without_reader(),
        lock.next(Event::ReleaseWrite).word == LockState::idle(),
{
}

/// A new lock is consistent.
pub proof fn law_initial_consistent()
    ensures
        Lock::initial().consistent(),
{
}

/// Every event that can take place in a consistent state leads to a
/// consistent state.
pub proof fn law_step_consistent(lock: Lock, event: Event)
    requires
        lock.consistent(),
        lock.enabled(event),
    ensures
        lock.next(event).consistent(),
{
}

/// Every schedule that a consistent state admits leads to a consistent state,
/// and so does each of its prefixes.
pub proof fn law_schedule_consistent(start: Lock, schedule: Seq<Event>)
    requires
        start.consistent(),
        start.admits(schedule),
    ensures
        start.run(schedule).consistent(),
        forall|n: int| 0 <= n <= schedule.len() ==> #[trigger] start.admits(schedule.take(n)),
        forall|n: int|
            0 <= n <= schedule.len() ==> (#[trigger] start.run(schedule.take(n))).consistent(),
    decreases schedule.len(),
{
    if schedule.len() > 0 {
        let front = schedule.drop_last();
        law_schedule_consistent(start, front);
        law_step_consistent(start.run(front), schedule.last());
    }
    assert forall|n: int| 0 <= n <= schedule.len() implies #[trigger] start.admits(
        schedule.take(n),
    ) by {
        lemma_prefix(schedule, n);
    }
    assert forall|n: int| 0 <= n <= schedule.len() implies (#[trigger] start.run(
        schedule.take(n),
    )).consistent() by {
        lemma_prefix(schedule, n);
    }
}

/// A prefix of a schedule is the whole schedule or a prefix of all but its
/// last event.
proof fn lemma_prefix(schedule: Seq<Event>, n: int)
    requires
        0 <= n <= schedule.len(),
    ensures
        n == schedule.len() ==> schedule.take(n) == schedule,
        n < schedule.len() ==> schedule.take(n) == schedule.drop_last().take(n),
{
    if n == schedule.len() {
        assert(schedule.take(n) =~= schedule);
    } else {
        assert(schedule.take(n) =~= schedule.drop_last().take(n));
    }
}

/// At every moment of every schedule of a new lock, either no reader is in or
/// no thread holds the lock for writing.
pub proof fn law_writer_excludes_readers(schedule: Seq<Event>, moment: int)
    requires
        Lock::initial().admits(schedule),
        0 <= moment <= schedule.len(),
    ensures
        Lock::initial().run(schedule.take(moment)).word.readers == 0 || !Lock::initial().run(
            schedule.take(moment),
        ).write_ticket,
{
    law_schedule_consistent(Lock::initial(), schedule);
}

/// At every moment of every schedule of a new lock, the reader count is
/// within the capacity of the word and equals the number of read tickets out.
pub proof fn law_readers_within_capacity(schedule: Seq<Event>, moment: int)
    requires
        Lock::initial().admits(schedule),
        0 <= moment <= schedule.len(),
    ensures
        Lock::initial().run(schedule.take(moment)).word.readers <= MAX_READERS,
        Lock::initial().run(schedule.take(moment)).word.readers == Lock::initial().run(
            schedule.take(moment),
        ).read_tickets,
{
    law_schedule_consistent(Lock::initial(), schedule);
}

/// Once the writer flag is set, it stays set and no reader passes its wait
/// predicate for as long as no write holder releases: a schedule without a
/// write release, started where the flag is set, holds no read acquisition
/// and ends with the flag set.
pub proof fn law_readers_wait_for_clear(start: Lock, schedule: Seq<Event>)
    requires
        start.word.writer_active,
        start.admits(schedule),
        forall|i: int| 0 <= i < schedule.len() ==> schedule[i] != Event::ReleaseWrite,
    ensures
        start.run(schedule).word.writer_active,
        forall|i: int| 0 <= i < schedule.len() ==> schedule[i] != Event::AcquireRead,
    decreases schedule.len(),
{
    if schedule.len() > 0 {
        let front = schedule.drop_last();
        law_readers_wait_for_clear(start, front);
        assert(start.run(front).enabled(schedule.last()));
        assert forall|i: int| 0 <= i < schedule.len() implies schedule[i]
            != Event::AcquireRead by {
            if i < front.len() {
                assert(front[i] == schedule[i]);
            }
        }
    }
}

/// While a writer is announced and waits, the only thing other threads can do
/// to the lock is to give read tickets back.
pub proof fn law_pending_writer_only_drains(lock: Lock, event: Event)
    requires
        lock.consistent(),
        lock.pending_writer,
        lock.enabled(event),
    ensures
        event == Event::ReleaseRead || event == Event::EnterWrite,
{
}

/// Read acquisitions and read releases balance: in every schedule of a new
/// lock the releases never outnumber the acquisitions, and the reader count
/// is their difference.
pub proof fn law_reads_balance(schedule: Seq<Event>)
    requires
        Lock::initial().admits(schedule),
    ensures
        occurrences(schedule, Event::ReleaseRead) <= occurrences(schedule, Event::AcquireRead),
        Lock::initial().run(schedule).word.readers == occurrences(schedule, Event::AcquireRead)
            - occurrences(schedule, Event::ReleaseRead),
    decreases schedule.len(),
{
    if schedule.len() > 0 {
        let front = schedule.drop_last();
        law_reads_balance(front);
        law_schedule_consistent(Lock::initial(), front);
    }
}

/// Write entries and write releases balance: in every schedule of a new lock
/// the releases never outnumber the entries, at most one entry is unreleased,
/// and it is unreleased exactly while a thread holds the lock for writing.
pub proof fn law_writes_balance(schedule: Seq<Event>)
    requires
        Lock::initial().admits(schedule),
    ensures
        occurrences(schedule, Event::EnterWrite) - occurrences(schedule, Event::ReleaseWrite) == (
        if Lock::initial().run(schedule).write_ticket {
            1int
        } else {
            0int
        }),
    decreases schedule.len(),
{
    if schedule.len() > 0 {
        let front = schedule.drop_last();
        law_writes_balance(front);
        law_schedule_consistent(Lock::initial(), front);
    }
}

/// A trade of a ticket for a sleep and a new ticket is the release of the old
/// ticket, then the sleep, then the acquisition in the new mode: whatever
/// other threads do meanwhile, the lock is consistent afterwards and a ticket
/// of the new mode is out; after a trade for the write ticket the word shows
/// the flag and no reader.
pub proof fn law_transition_lands(
    start: Lock,
    from: Mode,
    to: Mode,
    asleep: Seq<Event>,
    draining: Seq<Event>,
)
    requires
        start.consistent(),
        start.holds(from),
        start.admits(transition(from, to, asleep, draining)),
    ensures
        transition(from, to, asleep, draining).first() == release_of(from),
        start.run(transition(from, to, asleep, draining)).consistent(),
        start.run(transition(from, to, asleep, draining)).holds(to),
        to == Mode::Write ==> start.run(transition(from, to, asleep, draining)).word.write_held(),
        to == Mode::Read ==> !start.run(transition(from, to, asleep, draining)).word.writer_active,
{
    let whole = transition(from, to, asleep, draining);
    law_schedule_consistent(start, whole);
    law_schedule_consistent(start, whole.drop_last());
    match to {
        Mode::Read => {
            assert(whole.last() == Event::AcquireRead);
        },
        Mode::Write => {
            assert(whole.last() == Event::EnterWrite);
        },
    }
}

} // verus!
