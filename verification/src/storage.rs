//! The storage cell behind both primitives.
//!
//! A payload that several threads reach through a shared reference needs a
//! cell that may be written through `&`. The cell here is `std`'s `Mutex`,
//! used for nothing but that, and never waited for: a thread asks once
//! whether it may enter and is told at once. The flags decide who may enter,
//! so a thread that was let through by them finds the cell free; what a cell
//! that is not free means is for the caller to say.
//!
//! The cell is opaque to the verifier, and what it holds changes under a
//! shared reference. The contracts here state by which calls the cell was
//! entered and its contents reached; what the contents are at a given time
//! they cannot say.

use std::sync::Mutex;
use std::sync::MutexGuard;
use std::sync::PoisonError;
use std::sync::TryLockError;
use vstd::prelude::*;

verus! {

/// `std::sync::Mutex`, carried as an opaque value.
#[verifier::external_type_specification]
#[verifier::external_body]
#[verifier::reject_recursive_types(T)]
pub struct ExMutex<T: ?Sized>(Mutex<T>);

/// `std::sync::MutexGuard`, carried as an opaque value.
#[verifier::external_type_specification]
#[verifier::external_body]
#[verifier::reject_recursive_types(T)]
pub struct ExMutexGuard<'a, T: ?Sized + 'a>(MutexGuard<'a, T>);

/// `std::sync::PoisonError`, carried as an opaque value.
#[verifier::external_type_specification]
#[verifier::external_body]
#[verifier::reject_recursive_types(T)]
pub struct ExPoisonError<T>(PoisonError<T>);

/// `Mutex::new`: a cell that holds `value`. The cell is opaque, so nothing is
/// claimed of the result.
pub assume_specification<T>[ Mutex::<T>::new ](value: T) -> Mutex<T>;

/// What one attempt to enter a cell came to.
#[verifier::reject_recursive_types(T)]
pub(crate) enum Entry<'a, T> {
    /// The cell was free: this is the way in.
    Entered(MutexGuard<'a, T>),
    /// The cell was free, and a thread has panicked inside it before: the
    /// error carries the way in.
    Poisoned(PoisonError<MutexGuard<'a, T>>),
    /// Another access to the cell is alive.
    Busy,
}

/// `Mutex::try_lock`: asks for the cell and returns at once, without waiting
/// and without a panic, whoever is in the cell. The three outcomes of `std`
/// are handed on one for one. Which of them comes back depends on the other
/// threads, so nothing is claimed of the result.
#[verifier::external_body]
pub(crate) fn try_enter<'a, T>(cell: &'a Mutex<T>) -> (entry: Entry<'a, T>) {
    match cell.try_lock() {
        Ok(access) => Entry::Entered(access),
        Err(TryLockError::Poisoned(poisoned)) => Entry::Poisoned(poisoned),
        Err(TryLockError::WouldBlock) => Entry::Busy,
    }
}

/// `PoisonError::into_inner`: the value that the error carries.
pub assume_specification<T>[ PoisonError::<T>::into_inner ](poisoned: PoisonError<T>) -> T;

/// `Deref::deref` of `MutexGuard`: a shared reference to what the cell holds.
/// What it holds was left there by other calls, so nothing is claimed of it.
#[verifier::external_body]
pub(crate) fn contents<'g, 'a, T>(access: &'g MutexGuard<'a, T>) -> &'g T {
    std::ops::Deref::deref(access)
}

/// `DerefMut::deref_mut` of `MutexGuard`: an exclusive reference to what the
/// cell holds. Nothing is claimed of what it holds.
#[verifier::external_body]
pub(crate) fn contents_mut<'g, 'a, T>(access: &'g mut MutexGuard<'a, T>) -> &'g mut T {
    std::ops::DerefMut::deref_mut(access)
}

/// Whether `access` is what one attempt to enter `cell` may give: the way in
/// that `Mutex::try_lock` returned, or the one that `PoisonError::into_inner`
/// returned for its error, or nothing, where the cell was busy.
pub(crate) open spec fn entered<T>(cell: &Mutex<T>, access: Option<MutexGuard<'_, T>>) -> bool {
    exists|entry: Entry<'_, T>|
        #[trigger] call_ensures(try_enter::<T>, (cell,), entry) && match entry {
            Entry::Entered(inside) => access == Some(inside),
            Entry::Poisoned(poisoned) => access matches Some(inside) && call_ensures(
                PoisonError::<MutexGuard<'_, T>>::into_inner,
                (poisoned,),
                inside,
            ),
            Entry::Busy => access is None,
        }
}

/// Whether `slot` is the way to the slot behind `cell` that goes through
/// `access`: the access is one that an attempt to enter the cell may give, and
/// the slot is the exclusive reference that `DerefMut` gives for it.
pub(crate) open spec fn reached<T>(
    cell: &Mutex<Option<T>>,
    access: &mut MutexGuard<'_, Option<T>>,
    slot: &mut Option<T>,
) -> bool {
    entered(cell, Some(*access)) && call_ensures(contents_mut::<Option<T>>, (access,), slot)
}

/// Attempts once to enter the cell. A cell that was poisoned by a panic is
/// entered all the same: the primitives of this crate have no poisoning. A
/// cell that is busy is not waited for: the result is `None`.
pub(crate) fn enter<'a, T>(cell: &'a Mutex<T>) -> (access: Option<MutexGuard<'a, T>>)
    ensures
        entered(cell, access),
{
    match try_enter(cell) {
        Entry::Entered(access) => Some(access),
        Entry::Poisoned(poisoned) => Some(poisoned.into_inner()),
        Entry::Busy => None,
    }
}

/// Puts `value` into the slot behind `cell`, if the cell can be entered: the
/// slot is left holding `value`, and what it held before comes back in `Ok`.
/// From a busy cell `value` comes back in `Err`.
///
/// What was in the slot is moved out, not dropped in place: its destructor
/// runs where the caller drops it, after the cell has been left.
pub(crate) fn put<T>(cell: &Mutex<Option<T>>, value: T) -> (outcome: Result<Option<T>, T>)
    ensures
        match outcome {
            Ok(previous) => exists|access: &mut MutexGuard<'_, Option<T>>, slot: &mut Option<T>|
                {
                    &&& #[trigger] reached(cell, access, slot)
                    &&& *slot == previous
                    &&& *final(slot) == Some(value)
                },
            Err(back) => back == value && entered(cell, None),
        },
{
    match enter(cell) {
        Some(mut access) => {
            let ghost entry = access;
            let slot = contents_mut(&mut access);
            let ghost way = slot;
            proof {
                let lent = choose|lent: &mut MutexGuard<'_, Option<T>>|
                    *lent == entry && call_ensures(contents_mut::<Option<T>>, (lent,), way);
                assert(reached(cell, lent, way));
            }
            let previous = slot.take();
            *slot = Some(value);
            Ok(previous)
        },
        None => Err(value),
    }
}

/// Moves what the slot behind `cell` holds out of it, if the cell can be
/// entered: the inner result is what the slot was found to hold, and the slot
/// is left empty. From a busy cell the result is `None`.
pub(crate) fn take<T>(cell: &Mutex<Option<T>>) -> (outcome: Option<Option<T>>)
    ensures
        match outcome {
            Some(value) => exists|access: &mut MutexGuard<'_, Option<T>>, slot: &mut Option<T>|
                #[trigger] reached(cell, access, slot) && *slot == value && *final(slot) is None,
            None => entered(cell, None),
        },
{
    match enter(cell) {
        Some(mut access) => {
            let ghost entry = access;
            let slot = contents_mut(&mut access);
            let ghost way = slot;
            proof {
                let lent = choose|lent: &mut MutexGuard<'_, Option<T>>|
                    *lent == entry && call_ensures(contents_mut::<Option<T>>, (lent,), way);
                assert(reached(cell, lent, way));
            }
            Some(slot.take())
        },
        None => None,
    }
}

} // verus!
