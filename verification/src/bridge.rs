//! The guarded container through which the platform callback reaches the
//! event handler. The owner hands the callback side a way to the container;
//! the callback may come late, after the owner has torn the session down, so
//! every use first checks two guard words and then the payload itself.

use vstd::prelude::*;

verus! {

/// The value that both guard words hold while the container may be used.
pub const LIVE_GUARD: usize = usize::MAX;

/// The value that both guard words hold once the owner has given the
/// container up.
pub const DEAD_GUARD: usize = 0;

/// A payload between two guard words. It may be used while both guards hold
/// `LIVE_GUARD` and the payload has not been cleared.
pub struct ExterDataContainer<T> {
    lpadding: usize,
    data: Option<T>,
    lock_poisoned: bool,
    rpadding: usize,
}

/// The owner of a container. The container lives on the heap, so it stays
/// where it is while the owner moves. Giving the container up clears it, so
/// that a late use finds nothing.
pub struct SafeDropExternDataContainer<T>(Box<ExterDataContainer<T>>);

impl<T> ExterDataContainer<T> {
    /// The guard word before the payload.
    pub closed spec fn left_guard(&self) -> usize {
        self.lpadding
    }

    /// The guard word after the payload.
    pub closed spec fn right_guard(&self) -> usize {
        self.rpadding
    }

    /// The payload, `None` once it was cleared.
    pub closed spec fn payload(&self) -> Option<T> {
        self.data
    }

    /// Whether a use of the payload ended in a panic at some time.
    pub closed spec fn lock_is_poisoned(&self) -> bool {
        self.lock_poisoned
    }

    /// Both guards hold the live value.
    pub open spec fn is_live(&self) -> bool {
        self.left_guard() == LIVE_GUARD && self.right_guard() == LIVE_GUARD
    }

    /// The payload may be used: the container is live and holds one. A
    /// poisoned lock does not stand in the way.
    pub open spec fn usable(&self) -> bool {
        self.is_live() && self.payload() is Some
    }

    /// The container after its owner gave it up: both guards dead, no
    /// payload.
    pub closed spec fn invalidated(self) -> ExterDataContainer<T> {
        ExterDataContainer {
            lpadding: DEAD_GUARD,
            data: None,
            lock_poisoned: self.lock_poisoned,
            rpadding: DEAD_GUARD,
        }
    }

    /// The container after a use of its payload ended in a panic: the lock is
    /// poisoned, guards and payload are as they were.
    pub closed spec fn poisoned(self) -> ExterDataContainer<T> {
        ExterDataContainer {
            lpadding: self.lpadding,
            data: self.data,
            lock_poisoned: true,
            rpadding: self.rpadding,
        }
    }

    /// Puts `data` into a new live container and returns its owner.
    pub fn container(data: T) -> (r: SafeDropExternDataContainer<T>)
        ensures
            r@.left_guard() == LIVE_GUARD,
            r@.right_guard() == LIVE_GUARD,
            r@.payload() == Some(data),
            !r@.lock_is_poisoned(),
            r@.usable(),
    {
        SafeDropExternDataContainer(
            Box::new(
                ExterDataContainer {
                    lpadding: LIVE_GUARD,
                    data: Some(data),
                    lock_poisoned: false,
                    rpadding: LIVE_GUARD,
                },
            ),
        )
    }

    /// Says whether both guards hold the live value.
    pub fn check(&self) -> (r: bool)
        ensures
            r == self.is_live(),
    {
        self.lpadding == LIVE_GUARD && self.rpadding == LIVE_GUARD
    }

    /// Borrows the payload if the container is still usable: both guards are
    /// checked, then the payload. On a container that is not live, or whose
    /// payload was cleared, the result is `None` and nothing changes. A
    /// poisoned lock is recovered from, not passed on.
    pub fn lock(&mut self) -> (r: Option<&mut T>)
        ensures
            r is Some <==> old(self).usable(),
            final(self).left_guard() == old(self).left_guard(),
            final(self).right_guard() == old(self).right_guard(),
            final(self).lock_is_poisoned() == old(self).lock_is_poisoned(),
            match r {
                Some(p) => *p == old(self).payload().unwrap() && final(self).payload() == Some(
                    *final(p),
                ),
                None => *final(self) == *old(self),
            },
    {
        if self.lpadding == LIVE_GUARD && self.rpadding == LIVE_GUARD {
            match &mut self.data {
                Some(ldata) => Some(ldata),
                None => None,
            }
        } else {
            None
        }
    }

    /// Uses the payload if the container is still usable: calls `next` on it
    /// and returns what `next` returned. On a container that is not live, or
    /// whose payload was cleared, `next` is not called, nothing changes and
    /// the result is `None`. A poisoned lock is recovered from, not passed
    /// on: the payload is used all the same.
    pub fn check_and_lock<R, F: FnMut(&mut T) -> R>(&mut self, mut next: F) -> (r: Option<R>)
        requires
            old(self).usable() ==> forall|t: &mut T|
                *t == old(self).payload().unwrap() ==> call_requires(next, (t,)),
        ensures
            r is Some <==> old(self).usable(),
            final(self).left_guard() == old(self).left_guard(),
            final(self).right_guard() == old(self).right_guard(),
            final(self).lock_is_poisoned() == old(self).lock_is_poisoned(),
            !old(self).usable() ==> *final(self) == *old(self),
            old(self).usable() ==> final(self).usable() && exists|t: &mut T|
                {
                    &&& *t == old(self).payload().unwrap()
                    &&& *final(t) == final(self).payload().unwrap()
                    &&& call_ensures(next, (t,), r.unwrap())
                },
    {
        match self.lock() {
            Some(ldata) => Some(next(ldata)),
            None => None,
        }
    }

    /// Records that a use of the payload ended in a panic. Guards and
    /// payload stay, so the next use is served.
    pub fn note_panic(&mut self)
        ensures
            *final(self) == old(self).poisoned(),
            final(self).lock_is_poisoned(),
            final(self).left_guard() == old(self).left_guard(),
            final(self).right_guard() == old(self).right_guard(),
            final(self).payload() == old(self).payload(),
            final(self).usable() == old(self).usable(),
    {
        self.lock_poisoned = true;
    }

    /// Gives the container up: both guards become dead and the payload is
    /// cleared. Every later use finds nothing.
    pub fn invalidate(&mut self)
        ensures
            *final(self) == old(self).invalidated(),
            final(self).left_guard() == DEAD_GUARD,
            final(self).right_guard() == DEAD_GUARD,
            final(self).payload() is None,
            !final(self).is_live(),
            !final(self).usable(),
    {
        self.lpadding = DEAD_GUARD;
        self.rpadding = DEAD_GUARD;
        self.data = None;
    }
}

impl<T> View for SafeDropExternDataContainer<T> {
    type V = ExterDataContainer<T>;

    closed spec fn view(&self) -> ExterDataContainer<T> {
        *self.0
    }
}

impl<T> SafeDropExternDataContainer<T> {
    /// The container, for the callback side to read.
    pub fn as_ptr(&self) -> (r: &ExterDataContainer<T>)
        ensures
            *r == self@,
    {
        &self.0
    }

    /// The container, for the callback side to use.
    pub fn as_mut_ptr(&mut self) -> (r: &mut ExterDataContainer<T>)
        ensures
            *r == old(self)@,
            final(self)@ == *final(r),
    {
        &mut self.0
    }

    /// Ends the owner's hold while keeping the memory: the container is
    /// invalidated in place, as a late callback would still find it.
    pub fn invalidate(&mut self)
        ensures
            final(self)@ == old(self)@.invalidated(),
            !final(self)@.usable(),
    {
        self.0.invalidate();
    }
}

impl<T> Drop for SafeDropExternDataContainer<T> {
    /// Invalidates the container before its memory goes.
    fn drop(&mut self)
        ensures
            final(self)@ == old(self)@.invalidated(),
        opens_invariants none
        no_unwind
    {
        self.0.lpadding = DEAD_GUARD;
        self.0.rpadding = DEAD_GUARD;
        self.0.data = None;
    }
}

/// A container that was given up is not usable, whatever it held, and giving
/// it up once more changes nothing.
pub proof fn lemma_invalidated_is_unusable<T>(c: ExterDataContainer<T>)
    ensures
        !c.invalidated().is_live(),
        c.invalidated().payload() is None,
        !c.invalidated().usable(),
        c.invalidated().invalidated() == c.invalidated(),
{
}

/// A panic during one use does not stand in the way of the next: poisoning
/// the lock changes neither the guards nor the payload, so a usable
/// container stays usable.
pub proof fn lemma_poisoned_stays_usable<T>(c: ExterDataContainer<T>)
    ensures
        c.poisoned().lock_is_poisoned(),
        c.poisoned().left_guard() == c.left_guard(),
        c.poisoned().right_guard() == c.right_guard(),
        c.poisoned().payload() == c.payload(),
        c.poisoned().usable() == c.usable(),
{
}

/// A container is unusable as soon as one guard is off or the payload is
/// gone; a single overwritten guard is enough.
pub proof fn lemma_unusable_cases<T>(c: ExterDataContainer<T>)
    ensures
        c.left_guard() != LIVE_GUARD ==> !c.usable(),
        c.right_guard() != LIVE_GUARD ==> !c.usable(),
        c.payload() is None ==> !c.usable(),
{
}

} // verus!
