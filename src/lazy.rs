use vstd::prelude::*;

use crate::interrupt::{InterruptFlag, InterruptsStatus};

verus! {

/// Life cycle of a [`Lazy`] value.
pub enum LazyState<T, F> {
    Uninit(F),
    Init(T),
    Poisoned,
}

/// A value computed on first access, under a critical section, by a
/// one-shot initializer.
pub struct Lazy<T, F> {
    state: LazyState<T, F>,
}

impl<T, F: FnOnce() -> T> Lazy<T, F> {
    pub closed spec fn view(&self) -> LazyState<T, F> {
        self.state
    }

    pub fn new(f: F) -> (r: Lazy<T, F>)
        ensures
            r@ == LazyState::<T, F>::Uninit(f),
    {
        Lazy { state: LazyState::Uninit(f) }
    }

    /// Returns the value, running the initializer first if this is the first
    /// access. Later accesses return the cached value.
    pub fn get(&mut self, flag: &mut InterruptFlag) -> (r: &T)
        requires
            !(old(self)@ is Poisoned),
            old(self)@ matches LazyState::Uninit(f) ==> f.requires(()),
        ensures
            *final(flag) == *old(flag),
            final(self)@ == LazyState::<T, F>::Init(*r),
            old(self)@ matches LazyState::Init(v) ==> *r == v,
            old(self)@ matches LazyState::Uninit(f) ==> f.ensures((), *r),
    {
        let status = InterruptsStatus::disable_safe(flag);
        if let LazyState::Uninit(_) = &self.state {
            self.init();
        }
        status.restore(flag);
        match &self.state {
            LazyState::Init(data) => data,
            _ => vstd::pervasive::unreached(),
        }
    }

    fn init(&mut self)
        requires
            old(self)@ matches LazyState::Uninit(f) && f.requires(()),
        ensures
            old(self)@ matches LazyState::Uninit(f) && (final(self)@ matches LazyState::Init(v)
                && f.ensures((), v)),
    {
        let mut state = LazyState::Poisoned;
        std::mem::swap(&mut state, &mut self.state);
        match state {
            LazyState::Uninit(f) => {
                let data = f();
                self.state = LazyState::Init(data);
            },
            _ => {},
        }
    }
}

} // verus!
