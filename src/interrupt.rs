use vstd::prelude::*;

verus! {

/// The processor's global interrupt-enable flag.
#[derive(Clone, Copy, PartialEq, Eq, Debug, Structural)]
pub struct InterruptFlag {
    pub enabled: bool,
}

/// Whether interrupts were enabled when a critical section was entered; it
/// is handed back on exit to restore exactly that state.
#[derive(Clone, Copy, PartialEq, Eq, Debug, Structural)]
pub enum InterruptsStatus {
    Enabled,
    Disabled,
}

impl From<bool> for InterruptsStatus {
    fn from(value: bool) -> (r: InterruptsStatus) {
        if value {
            InterruptsStatus::Enabled
        } else {
            InterruptsStatus::Disabled
        }
    }
}

impl vstd::std_specs::convert::FromSpecImpl<bool> for InterruptsStatus {
    open spec fn obeys_from_spec() -> bool {
        true
    }

    open spec fn from_spec(value: bool) -> InterruptsStatus {
        if value {
            InterruptsStatus::Enabled
        } else {
            InterruptsStatus::Disabled
        }
    }
}

impl InterruptsStatus {
    /// The status recorded when entering a critical section from `flag`.
    pub open spec fn entered(flag: InterruptFlag) -> InterruptsStatus {
        if flag.enabled {
            InterruptsStatus::Enabled
        } else {
            InterruptsStatus::Disabled
        }
    }

    /// The flag after leaving a critical section whose entry recorded `self`:
    /// interrupts are enabled again only if they were enabled at entry.
    pub open spec fn restored(self, flag: InterruptFlag) -> InterruptFlag {
        match self {
            InterruptsStatus::Enabled => InterruptFlag { enabled: true },
            InterruptsStatus::Disabled => flag,
        }
    }

    /// Enters a critical section: records the flag and disables interrupts.
    pub fn disable_safe(flag: &mut InterruptFlag) -> (r: InterruptsStatus)
        ensures
            r == Self::entered(*old(flag)),
            *final(flag) == (InterruptFlag { enabled: false }),
    {
        let status = InterruptsStatus::from(flag.enabled);
        flag.enabled = false;
        status
    }

    /// Leaves a critical section, restoring the state recorded at entry.
    pub fn restore(self, flag: &mut InterruptFlag)
        ensures
            *final(flag) == self.restored(*old(flag)),
    {
        match self {
            InterruptsStatus::Enabled => {
                flag.enabled = true;
            },
            InterruptsStatus::Disabled => {},
        }
    }
}

/// Runs `f` with interrupts disabled and then restores the flag to its value
/// at entry.
pub fn without_interrupts<F, T>(flag: &mut InterruptFlag, f: F) -> (r: T) where F: FnOnce() -> T
    requires
        f.requires(()),
    ensures
        f.ensures((), r),
        *final(flag) == *old(flag),
{
    let status = InterruptsStatus::disable_safe(flag);
    let r = f();
    status.restore(flag);
    r
}

/// Nesting law: entering a critical section twice and leaving it twice
/// leaves the flag as it was before the first entry, and leaving the inner
/// section keeps interrupts disabled.
pub proof fn lemma_nested_critical_sections(flag: InterruptFlag)
    ensures
        ({
            let outer = InterruptsStatus::entered(flag);
            let inside = InterruptFlag { enabled: false };
            let inner = InterruptsStatus::entered(inside);
            let after_inner = inner.restored(inside);
            &&& !after_inner.enabled
            &&& outer.restored(after_inner) == flag
        }),
{
}

} // verus!
