//! A read guard on a part of the protected data.
//!
//! The guard owns one read ticket of a raw lock and carries a shared borrow
//! of some part of what the lock protects. It can be narrowed to a smaller
//! part, which moves the ticket into the narrower guard. The ticket is a
//! value with one owner at a time, and it is given back when its owner goes
//! out of scope.

use vstd::prelude::*;
use crate::raw::RawSharedMutex;

verus! {

/// `std::mem::forget` consumes a value without running its destructor. It
/// returns nothing, so nothing is claimed of it.
pub assume_specification<T>[ std::mem::forget::<T> ](t: T);

/// One read ticket of a raw lock. It is given back to the lock when the value
/// goes out of scope.
#[derive(Debug)]
struct ReadTicket<'mutex> {
    mutex: &'mutex RawSharedMutex,
}

impl<'mutex> Drop for ReadTicket<'mutex> {
    /// Gives the read ticket back.
    fn drop(&mut self)
        opens_invariants none
        no_unwind
    {
        self.mutex.unlock_read();
    }
}

/// A read guard to a sub-borrow of the data behind a read ticket.
///
/// Unlike the guard it was made from, it cannot be used to wait on a
/// condition variable.
#[derive(Debug)]
pub struct MappedSharedMutexReadGuard<'mutex, T: ?Sized + 'mutex> {
    ticket: ReadTicket<'mutex>,
    data: &'mutex T,
}

impl<'mutex, T: ?Sized> MappedSharedMutexReadGuard<'mutex, T> {
    /// The borrow that the guard carries.
    pub closed spec fn target(&self) -> &T {
        self.data
    }

    /// The lock whose ticket the guard owns.
    pub closed spec fn lock(&self) -> &RawSharedMutex {
        self.ticket.mutex
    }

    /// Wraps a read ticket of `mutex` that the caller holds, together with a
    /// borrow of what the ticket protects. The ticket is the guard's from
    /// then on: the guard gives it back when it goes out of scope.
    pub fn new(mutex: &'mutex RawSharedMutex, data: &'mutex T) -> (guard: Self)
        ensures
            guard.lock() == mutex,
            guard.target() == data,
    {
        MappedSharedMutexReadGuard { ticket: ReadTicket { mutex: mutex }, data: data }
    }

    /// Transform this guard into a guard on a part of its data. The ticket
    /// moves to the new guard.
    pub fn map<U: ?Sized, F>(self, action: F) -> (mapped: MappedSharedMutexReadGuard<'mutex, U>)
        where F: FnOnce(&T) -> &U
        requires
            action.requires((self.target(),)),
        ensures
            action.ensures((self.target(),), mapped.target()),
            mapped.lock() == self.lock(),
    {
        let new_data = action(self.data);
        MappedSharedMutexReadGuard { ticket: self.ticket, data: new_data }
    }

    /// Conditionally transform this guard into a guard on a part of its data.
    /// If the transformation declines, the guard goes out of scope and the
    /// ticket is given back.
    pub fn option_map<U: ?Sized, F>(self, action: F) -> (mapped: Option<
        MappedSharedMutexReadGuard<'mutex, U>,
    >)
        where F: FnOnce(&T) -> Option<&U>
        requires
            action.requires((self.target(),)),
        ensures
            match mapped {
                Some(guard) => action.ensures((self.target(),), Some(guard.target()))
                    && guard.lock() == self.lock(),
                None => action.ensures((self.target(),), None),
            },
    {
        match action(self.data) {
            Some(new_data) => Some(
                MappedSharedMutexReadGuard { ticket: self.ticket, data: new_data },
            ),
            None => None,
        }
    }

    /// Conditionally transform this guard into a guard on a part of its data.
    ///
    /// If the transformation operation is aborted, returns this guard as it
    /// was, together with the reason.
    pub fn result_map<U: ?Sized, E, F>(self, action: F) -> (mapped: Result<
        MappedSharedMutexReadGuard<'mutex, U>,
        (Self, E),
    >)
        where F: FnOnce(&T) -> Result<&U, E>
        requires
            action.requires((self.target(),)),
        ensures
            match mapped {
                Ok(guard) => action.ensures((self.target(),), Ok(guard.target())) && guard.lock()
                    == self.lock(),
                Err((guard, reason)) => action.ensures((self.target(),), Err(reason)) && guard
                    == self,
            },
    {
        match action(self.data) {
            Ok(new_data) => Ok(MappedSharedMutexReadGuard { ticket: self.ticket, data: new_data }),
            Err(reason) => Err((self, reason)),
        }
    }

    /// Hands the ticket back to a caller that names the lock it belongs to,
    /// without unlocking. If `mutex` is not the very lock of this guard, the
    /// guard is returned as it was.
    pub fn surrender(self, mutex: &RawSharedMutex) -> (kept: Result<(), Self>)
        ensures
            match kept {
                Ok(_) => *self.lock() == *mutex,
                Err(guard) => guard == self,
            },
    {
        if self.ticket.mutex.is(mutex) {
            // The ticket is the caller's again: it must not be given back here.
            std::mem::forget(self.ticket);
            Ok(())
        } else {
            Err(self)
        }
    }
}

impl<'mutex, T: ?Sized> std::ops::Deref for MappedSharedMutexReadGuard<'mutex, T> {
    type Target = T;

    fn deref(&self) -> (data: &T)
        ensures
            data == self.target(),
    {
        self.data
    }
}

} // verus!
