use calculus_link::interrupt::{without_interrupts, InterruptFlag, InterruptsStatus};
use calculus_link::lazy::{Lazy, LazyState};
use calculus_link::mutex::Mutex;

#[test]
fn critical_section_restores_enabled_flag() {
    let mut flag = InterruptFlag { enabled: true };
    let status = InterruptsStatus::disable_safe(&mut flag);
    assert_eq!(status, InterruptsStatus::Enabled);
    assert!(!flag.enabled);
    status.restore(&mut flag);
    assert!(flag.enabled);
}

#[test]
fn nested_critical_sections_restore_state_at_entry() {
    for at_entry in [true, false] {
        let mut flag = InterruptFlag { enabled: at_entry };
        let outer = InterruptsStatus::disable_safe(&mut flag);
        let inner = InterruptsStatus::disable_safe(&mut flag);
        assert_eq!(inner, InterruptsStatus::Disabled);
        inner.restore(&mut flag);
        assert!(!flag.enabled);
        outer.restore(&mut flag);
        assert_eq!(flag.enabled, at_entry);
    }
}

#[test]
fn without_interrupts_returns_closure_value_and_keeps_flag() {
    let mut flag = InterruptFlag { enabled: true };
    let value = without_interrupts(&mut flag, || 41 + 1);
    assert_eq!(value, 42);
    assert!(flag.enabled);
    let mut flag = InterruptFlag { enabled: false };
    let value = without_interrupts(&mut flag, || 7);
    assert_eq!(value, 7);
    assert!(!flag.enabled);
}

#[test]
fn status_from_bool() {
    assert_eq!(InterruptsStatus::from(true), InterruptsStatus::Enabled);
    assert_eq!(InterruptsStatus::from(false), InterruptsStatus::Disabled);
}

#[test]
fn lazy_runs_initializer_once() {
    let mut flag = InterruptFlag { enabled: true };
    let mut lazy = Lazy::new(|| vec![1u8, 2, 3]);
    assert_eq!(lazy.get(&mut flag), &vec![1u8, 2, 3]);
    assert_eq!(lazy.get(&mut flag).len(), 3);
    assert!(flag.enabled);
}

#[test]
fn lazy_state_names() {
    let state: LazyState<u8, fn() -> u8> = LazyState::Poisoned;
    assert!(matches!(state, LazyState::Poisoned));
}

#[test]
fn mutex_lock_would_block_until_unlocked() {
    let mut flag = InterruptFlag { enabled: true };
    let mut mutex = Mutex::new(5u32);
    let mut guard = mutex.lock(&mut flag).expect("unlocked");
    assert!(mutex.lock(&mut flag).is_none());
    *guard.get_mut() += 1;
    assert_eq!(*guard.get(), 6);
    mutex.unlock(guard, &mut flag);
    let guard = mutex.lock(&mut flag).expect("unlocked again");
    assert_eq!(*guard.get(), 6);
    assert!(flag.enabled);
}
