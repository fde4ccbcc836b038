use vstd::prelude::*;

use crate::interrupt::{InterruptFlag, InterruptsStatus};

verus! {

/// Try-lock guard over data shared between the main loop and interrupt
/// handlers; [`Mutex::lock`] never waits.
///
/// While locked, the data travels in the [`MutexGuard`] and comes back with
/// [`Mutex::unlock`].
pub struct Mutex<T> {
    is_locked: bool,
    data: Option<T>,
}

/// Exclusive access to the data of a locked [`Mutex`].
pub struct MutexGuard<T> {
    data: T,
}

impl<T> MutexGuard<T> {
    fn new(data: T) -> (r: MutexGuard<T>)
        ensures
            r@ == data,
    {
        MutexGuard { data }
    }

    /// The guarded data.
    pub closed spec fn view(&self) -> T {
        self.data
    }

    pub fn get(&self) -> (r: &T)
        ensures
            *r == self@,
    {
        &self.data
    }

    pub fn get_mut(&mut self) -> (r: &mut T)
        ensures
            *r == old(self)@,
            final(self)@ == *final(r),
    {
        &mut self.data
    }
}

impl<T> Mutex<T> {
    pub closed spec fn wf(&self) -> bool {
        self.is_locked <==> self.data is None
    }

    pub closed spec fn locked(&self) -> bool {
        self.is_locked
    }

    /// The data while unlocked.
    pub closed spec fn value(&self) -> T {
        self.data->Some_0
    }

    pub fn new(value: T) -> (r: Mutex<T>)
        ensures
            r.wf(),
            !r.locked(),
            r.value() == value,
    {
        Mutex { is_locked: false, data: Some(value) }
    }

    /// Takes the lock under a critical section, or returns `None` ("would
    /// block") when it is already held.
    pub fn lock(&mut self, flag: &mut InterruptFlag) -> (r: Option<MutexGuard<T>>)
        requires
            old(self).wf(),
        ensures
            final(self).wf(),
            final(self).locked(),
            *final(flag) == *old(flag),
            old(self).locked() ==> r is None && *final(self) == *old(self),
            !old(self).locked() ==> (r matches Some(g) && g@ == old(self).value()),
    {
        let status = InterruptsStatus::disable_safe(flag);
        let mut taken: Option<T> = None;
        if !self.is_locked {
            std::mem::swap(&mut taken, &mut self.data);
            self.is_locked = true;
        }
        status.restore(flag);
        match taken {
            Some(data) => Some(MutexGuard::new(data)),
            None => None,
        }
    }

    /// Gives the guarded data back and releases the lock.
    pub fn unlock(&mut self, guard: MutexGuard<T>, flag: &mut InterruptFlag)
        requires
            old(self).wf(),
            old(self).locked(),
        ensures
            final(self).wf(),
            !final(self).locked(),
            final(self).value() == guard@,
            *final(flag) == *old(flag),
    {
        let status = InterruptsStatus::disable_safe(flag);
        self.data = Some(guard.data);
        self.is_locked = false;
        status.restore(flag);
    }
}

} // verus!
