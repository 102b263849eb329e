//! The spinlock protocol for one core: acquisition records the interrupt
//! state, and a second acquisition or release is reported.
use vstd::prelude::*;

verus! {

/// A violation of the lock protocol, which the kernel treats as fatal: the
/// caller tests `is_locked` before `lock` and `unlock` and halts with the
/// report of the violation it finds.
#[derive(Clone, Copy, PartialEq, Eq, Structural, Debug)]
pub enum LockError {
    /// The lock is taken again by the context that holds it: on a single
    /// core nothing could ever release it.
    Deadlock,
    /// The lock is released while nobody holds it.
    NotLocked,
}

/// A lock whose holder failed while holding it. These locks are never
/// poisoned; the type keeps `TryLockError` in its usual shape.
#[derive(Clone, Copy, PartialEq, Eq, Structural, Debug)]
pub struct PoisonError {}

/// Why `try_lock` did not take the lock.
#[derive(Clone, Copy, PartialEq, Eq, Structural, Debug)]
pub enum TryLockError {
    Poisoned(PoisonError),
    WouldBlock,
}

/// A spinlock around `data` for one core with interrupts: whether it is
/// held, and the interrupt-enable state to restore when it is released.
pub struct Spinlock<T> {
    pub atom: bool,
    pub interrupts: bool,
    pub data: T,
}

/// The lock's protocol state: (held, saved interrupt-enable state).
pub type LockModel = (bool, bool);

/// Acquiring with interrupts in state `ints`: a held lock cannot be
/// acquired (`None`); a free one becomes held and remembers `ints`.
pub open spec fn acquire(s: LockModel, ints: bool) -> Option<LockModel> {
    if s.0 {
        None
    } else {
        Some((true, ints))
    }
}

/// Releasing: a free lock cannot be released (`None`); a held one becomes
/// free, and hands back the interrupt state to restore.
pub open spec fn release(s: LockModel) -> Option<(LockModel, bool)> {
    if s.0 {
        Some(((false, s.1), s.1))
    } else {
        None
    }
}

/// A lock that has been acquired cannot be acquired again until it is
/// released: of two contexts racing for it exactly one wins, and a second
/// attempt by the holder is reported as a deadlock instead of spinning.
/// Releasing it hands back the interrupt state recorded by the acquire, and
/// a second release is reported as an error.
pub proof fn lemma_mutual_exclusion(s: LockModel, ints1: bool, ints2: bool)
    requires
        !s.0,
    ensures
        acquire(s, ints1) is Some,
        acquire(acquire(s, ints1)->Some_0, ints2) is None,
        release(acquire(s, ints1)->Some_0) == Some(((false, ints1), ints1)),
        release(release(acquire(s, ints1)->Some_0)->Some_0.0) is None,
        acquire(release(acquire(s, ints1)->Some_0)->Some_0.0, ints2) == Some((true, ints2)),
{
}

impl<T> Spinlock<T> {
    pub open spec fn model(&self) -> LockModel {
        (self.atom, self.interrupts)
    }

    /// A free lock around `t`.
    pub fn new(t: T) -> (r: Spinlock<T>)
        ensures
            r.model() == (false, false),
            r.data == t,
    {
        Spinlock { atom: false, interrupts: false, data: t }
    }

    /// Acquires the lock; `interrupts_enabled` is the interrupt state that
    /// the caller found before disabling interrupts for the critical
    /// section. The lock must be free: on a single core a held lock is
    /// held by the caller itself, which is a deadlock that the caller
    /// reports (`LockError::Deadlock`) instead of calling this.
    pub fn lock(&mut self, interrupts_enabled: bool)
        requires
            !old(self).atom,
        ensures
            final(self).data == old(self).data,
            final(self).model() == acquire(old(self).model(), interrupts_enabled)->Some_0,
            final(self).model() == (true, interrupts_enabled),
    {
        self.atom = true;
        self.interrupts = interrupts_enabled;
    }

    /// Acquires the lock if it is free, else reports that it would block.
    pub fn try_lock(&mut self, interrupts_enabled: bool) -> (r: Result<(), TryLockError>)
        ensures
            final(self).data == old(self).data,
            acquire(old(self).model(), interrupts_enabled) is Some ==> r is Ok
                && final(self).model() == acquire(old(self).model(), interrupts_enabled)->Some_0,
            acquire(old(self).model(), interrupts_enabled) is None ==> r == Err::<(), TryLockError>(TryLockError::WouldBlock)
                && final(self).model() == old(self).model(),
    {
        if self.atom {
            return Err(TryLockError::WouldBlock);
        }
        self.atom = true;
        self.interrupts = interrupts_enabled;
        Ok(())
    }

    /// Releases the lock and returns the interrupt state to restore. The
    /// lock must be held: releasing a free lock is a protocol violation
    /// that the caller reports (`LockError::NotLocked`) instead of calling
    /// this.
    pub fn unlock(&mut self) -> (r: bool)
        requires
            old(self).atom,
        ensures
            final(self).data == old(self).data,
            r == release(old(self).model())->Some_0.1,
            r == old(self).interrupts,
            final(self).model() == release(old(self).model())->Some_0.0,
            final(self).model() == (false, old(self).interrupts),
    {
        self.atom = false;
        self.interrupts
    }

    /// The violation that taking the lock now would be: a deadlock when it
    /// is already held, none when it is free.
    pub fn lock_violation(&self) -> (r: Option<LockError>)
        ensures
            r == (if self.atom { Some(LockError::Deadlock) } else { None::<LockError> }),
    {
        if self.atom {
            Some(LockError::Deadlock)
        } else {
            None
        }
    }

    /// The violation that releasing the lock now would be: releasing a free
    /// lock, none when it is held.
    pub fn unlock_violation(&self) -> (r: Option<LockError>)
        ensures
            r == (if self.atom { None::<LockError> } else { Some(LockError::NotLocked) }),
    {
        if self.atom {
            None
        } else {
            Some(LockError::NotLocked)
        }
    }

    /// Whether the lock is held.
    pub fn is_locked(&self) -> (r: bool)
        ensures
            r == self.atom,
    {
        self.atom
    }

    /// The protected value, reached through exclusive access to the lock
    /// itself, so without taking it.
    pub fn get_mut(&mut self) -> (r: &mut T)
        ensures
            *r == old(self).data,
            final(self).data == *final(r),
            final(self).model() == old(self).model(),
    {
        &mut self.data
    }
}

impl LockError {
    /// The report with which the kernel halts.
    pub fn message(&self) -> (r: &'static str)
        ensures
            *self == LockError::Deadlock ==> r@ == "Spinlock deadlock: lock already acquired"@,
            *self == LockError::NotLocked ==> r@ == "trying to unlock an already unlocked lock"@,
    {
        match self {
            LockError::Deadlock => "Spinlock deadlock: lock already acquired",
            LockError::NotLocked => "trying to unlock an already unlocked lock",
        }
    }
}

} // verus!
