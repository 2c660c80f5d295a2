//! The packed state word: a reader count in the low bits and a
//! writer-active-or-pending flag in the high bit.
//!
//! The high bit is worth one more than the largest reader count, so the flag
//! is read by comparing the word with that weight and the count by taking the
//! weight off.

use vstd::prelude::*;

verus! {

/// The largest number of simultaneous read holders: all ones on the reader bits.
pub const MAX_READERS: usize = usize::MAX / 2;

/// The high bit of the word, set while a writer is pending or active.
pub const WRITER_ACTIVE: usize = usize::MAX / 2 + 1;

/// What a state word means: the flag and the count, unpacked.
pub struct LockState {
    pub writer_active: bool,
    pub readers: nat,
}

/// The state of a lock, packed into one machine word.
#[derive(Clone, Copy, Debug, PartialEq, Eq, Structural)]
pub struct StateWord {
    bits: usize,
}

impl View for StateWord {
    type V = LockState;

    open spec fn view(&self) -> LockState {
        LockState {
            writer_active: self.raw() > MAX_READERS,
            readers: if self.raw() > MAX_READERS {
                (self.raw() - WRITER_ACTIVE) as nat
            } else {
                self.raw() as nat
            },
        }
    }
}

impl StateWord {
    /// The word itself.
    pub closed spec fn raw(&self) -> usize {
        self.bits
    }

    /// Two words with the same meaning are the same word.
    pub proof fn law_meaning_determines_word(a: StateWord, b: StateWord)
        requires
            a@ == b@,
        ensures
            a == b,
    {
    }

    /// The reader count always fits the reader bits.
    pub proof fn law_readers_fit_the_word(self)
        ensures
            self@.readers <= MAX_READERS,
    {
    }

    /// A fresh word: no writer, no readers.
    pub fn new() -> (s: StateWord)
        ensures
            !s@.writer_active,
            s@.readers == 0,
    {
        StateWord { bits: 0 }
    }

    /// The word for a given flag and count, if the count fits the reader bits.
    pub fn from_parts(writer_active: bool, readers: usize) -> (packed: Option<StateWord>)
        ensures
            packed.is_some() == (readers <= MAX_READERS),
            packed.is_some() ==> packed.unwrap()@.writer_active == writer_active
                && packed.unwrap()@.readers == readers,
    {
        if readers > MAX_READERS {
            None
        } else if writer_active {
            Some(StateWord { bits: readers + WRITER_ACTIVE })
        } else {
            Some(StateWord { bits: readers })
        }
    }

    /// Whether a writer is pending or active.
    pub fn is_writer_active(&self) -> (b: bool)
        ensures
            b == self@.writer_active,
        opens_invariants none
        no_unwind
    {
        self.bits >= WRITER_ACTIVE
    }

    /// Announces a writer: sets the flag and keeps the count.
    pub fn set_writer_active(&mut self)
        ensures
            final(self)@.writer_active,
            final(self)@.readers == old(self)@.readers,
    {
        if self.bits < WRITER_ACTIVE {
            self.bits = self.bits + WRITER_ACTIVE;
        }
    }

    /// Wipes the whole word: no writer, no readers.
    pub fn clear_all(&mut self)
        ensures
            !final(self)@.writer_active,
            final(self)@.readers == 0,
        opens_invariants none
        no_unwind
    {
        self.bits = 0;
    }

    /// The number of active read holders.
    pub fn readers(&self) -> (n: usize)
        ensures
            n == self@.readers,
        opens_invariants none
        no_unwind
    {
        if self.bits >= WRITER_ACTIVE {
            self.bits - WRITER_ACTIVE
        } else {
            self.bits
        }
    }

    /// Whether the reader count stands at its maximum.
    pub fn at_max_readers(&self) -> (b: bool)
        ensures
            b == (self@.readers == MAX_READERS),
        opens_invariants none
        no_unwind
    {
        self.readers() == MAX_READERS
    }

    /// Whether the reader count stands one below its maximum.
    pub fn one_below_max_readers(&self) -> (b: bool)
        ensures
            b == (self@.readers == MAX_READERS - 1),
    {
        self.readers() == MAX_READERS - 1
    }

    /// Counts one more reader; the flag is kept.
    pub fn add_reader(&mut self)
        requires
            old(self)@.readers < MAX_READERS,
        ensures
            final(self)@.readers == old(self)@.readers + 1,
            final(self)@.writer_active == old(self)@.writer_active,
    {
        self.bits = self.bits + 1;
    }

    /// Counts one reader fewer; the flag is kept.
    pub fn remove_reader(&mut self)
        requires
            old(self)@.readers > 0,
        ensures
            final(self)@.readers == old(self)@.readers - 1,
            final(self)@.writer_active == old(self)@.writer_active,
        opens_invariants none
        no_unwind
    {
        self.bits = self.bits - 1;
    }
}

} // verus!
