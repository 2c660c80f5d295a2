//! A readers-writer lock whose holders can wait on a condition variable.
//!
//! The lock keeps one packed state word under an internal mutex. Every
//! operation is a short critical section that inspects the word, decides, and
//! either returns or goes to sleep on one of two internal waiting channels.
//! The decisions are pure functions with exact contracts; the protocol they
//! form is stated as a transition system whose invariants are proved.

pub mod state;
pub mod machine;
pub mod raw;
pub mod mapped;
pub mod protocol;
