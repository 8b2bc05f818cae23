use std::cell::Cell;

use general_mutex::critical_section;
use general_mutex::guarded::{
    exclusive_access, shared_access, try_exclusive_access, try_shared_access, Held,
};
use general_mutex::spin_mutex;
use general_mutex::std_mutex;
use general_mutex::tests::{
    judge_lock, judge_lock_mut, judge_nested, leave, pass_by, raise_flag, read_flag,
};
use general_mutex::shared::Aliased;

#[test]
fn std_create() {
    let mutex: std_mutex::Mutex<u8> = std_mutex::Mutex::new(0);
    let hold = mutex.try_hold().expect("a new lock is free");
    assert_eq!(mutex.lock(hold, |value| *value), 0);
}

#[test]
fn std_lock() {
    let flag = Cell::new(false);
    let mutex: std_mutex::Mutex<&Cell<bool>> = std_mutex::Mutex::new(&flag);
    let hold = mutex.try_hold().expect("a new lock is free");
    let res = mutex.lock(hold, |flag| {
        flag.set(true);
        255
    });
    assert!(flag.get());
    assert_eq!(res, 255);
}

#[test]
fn std_lock_mut() {
    let mut mutex: std_mutex::Mutex<u32> = std_mutex::Mutex::new(0);
    let res = mutex.lock_mut(|value| {
        *value += 5;
        255
    });
    assert_eq!(res, 255);
    let hold = mutex.try_hold().expect("no access is running");
    assert_eq!(mutex.lock(hold, |value| *value), 5);
}

#[test]
fn std_recursive_lock_finds_the_lock_held() {
    let mutex: std_mutex::Mutex<u32> = std_mutex::Mutex::new(0);
    let hold = mutex.try_hold().expect("a new lock is free");
    let nested_is_refused = mutex.lock(hold, |_| mutex.try_hold().is_none());
    assert!(nested_is_refused);
    assert!(mutex.try_hold().is_some());
}

#[test]
fn spin_create() {
    let mutex: spin_mutex::Mutex<u8> = spin_mutex::Mutex::new(0);
    let hold = mutex.try_hold().expect("a new lock is free");
    assert_eq!(mutex.lock(hold, |value| *value), 0);
}

#[test]
fn spin_lock() {
    let flag = Cell::new(false);
    let mutex: spin_mutex::Mutex<&Cell<bool>> = spin_mutex::Mutex::new(&flag);
    let hold = mutex.try_hold().expect("a new lock is free");
    let res = mutex.lock(hold, |flag| {
        flag.set(true);
        255
    });
    assert!(flag.get());
    assert_eq!(res, 255);
}

#[test]
fn spin_lock_mut() {
    let mut mutex: spin_mutex::Mutex<u32> = spin_mutex::Mutex::new(0);
    let res = mutex.lock_mut(|value| {
        *value += 5;
        255
    });
    assert_eq!(res, 255);
    let hold = mutex.try_hold().expect("no access is running");
    assert_eq!(mutex.lock(hold, |value| *value), 5);
}

#[test]
fn spin_recursive_lock_finds_the_lock_held() {
    let mutex: spin_mutex::Mutex<u32> = spin_mutex::Mutex::new(0);
    let hold = mutex.try_hold().expect("a new lock is free");
    let nested_is_refused = mutex.lock(hold, |_| mutex.try_hold().is_none());
    assert!(nested_is_refused);
    assert!(mutex.try_hold().is_some());
}

#[test]
fn critical_section_create() {
    let mutex: critical_section::Mutex<u8> = critical_section::Mutex::new(0);
    let hold = mutex.try_hold().expect("a new mutex is not entered");
    assert_eq!(mutex.lock(hold, |value| *value), 0);
}

#[test]
fn critical_section_lock() {
    let flag = Cell::new(false);
    let mutex: critical_section::Mutex<&Cell<bool>> = critical_section::Mutex::new(&flag);
    let hold = mutex.try_hold().expect("a new mutex is not entered");
    let res = mutex.lock(hold, |flag| {
        flag.set(true);
        255
    });
    assert!(flag.get());
    assert_eq!(res, 255);
}

#[test]
fn critical_section_lock_mut() {
    let mut mutex: critical_section::Mutex<u32> = critical_section::Mutex::new(0);
    let res = mutex.lock_mut(|value| {
        *value += 5;
        255
    });
    assert_eq!(res, 255);
    let hold = mutex.try_hold().expect("no access is running");
    assert_eq!(mutex.lock(hold, |value| *value), 5);
}

#[test]
fn critical_section_recursive_lock_finds_the_mutex_entered() {
    let mutex: critical_section::Mutex<u32> = critical_section::Mutex::new(0);
    let hold = mutex.try_hold().expect("a new mutex is not entered");
    let nested_is_refused = mutex.lock(hold, |_| mutex.try_hold().is_none());
    assert!(nested_is_refused);
    assert!(mutex.try_hold().is_some());
}

#[test]
fn shared_access_runs_the_closure_once_and_then_lets_go() {
    let calls = Cell::new(0u32);
    let gate = std::cell::RefCell::new(());
    let data = 10u32;
    let guard = gate.try_borrow_mut().expect("nothing is borrowed");
    let ran = shared_access(guard, &data, |value| {
        calls.set(calls.get() + 1);
        assert!(gate.try_borrow_mut().is_err());
        *value * 2
    });
    assert_eq!(ran, 20);
    assert_eq!(calls.get(), 1);
    assert!(gate.try_borrow_mut().is_ok());
}

#[test]
fn the_probes_of_the_battery() {
    assert_eq!(read_flag(&1), (1, 255));
    assert_eq!(read_flag(&9), (9, 255));
    let mut flag = 0u8;
    assert_eq!(raise_flag(&mut flag), 255);
    assert_eq!(flag, 1);
    leave(&mut flag);
    assert_eq!(flag, 1);
    pass_by(&flag);
    assert_eq!(flag, 1);
}

#[test]
fn the_verdicts_of_the_battery() {
    assert!(judge_lock((1, 255)));
    assert!(!judge_lock((0, 255)));
    assert!(!judge_lock((1, 254)));
    assert!(judge_lock_mut(255));
    assert!(!judge_lock_mut(0));
    assert!(judge_nested(Err(Aliased)));
    assert!(judge_nested(Ok(Err(Aliased))));
    assert!(!judge_nested(Ok(Ok(()))));
}

#[test]
fn std_try_lock_asks_its_own_lock() {
    let touched = Cell::new(false);
    let mut mutex: std_mutex::Mutex<u32> = std_mutex::Mutex::new(0);
    assert_eq!(mutex.try_lock(|value| *value), Ok(0));
    assert_eq!(mutex.try_lock_mut(|value| { *value += 5; 255 }), Ok(255));
    assert_eq!(mutex.try_lock(|value| *value), Ok(5));
    let nested = mutex.try_lock(|_| mutex.try_lock(|_| touched.set(true)));
    assert_eq!(nested, Ok(Err(Held)));
    assert!(!touched.get());
    let other: std_mutex::Mutex<u32> = std_mutex::Mutex::new(9);
    let across = mutex.try_lock(|_| other.try_lock(|value| *value));
    assert_eq!(across, Ok(Ok(9)));
    assert_eq!(mutex.try_lock(|value| *value), Ok(5));
}

#[test]
fn spin_try_lock_asks_its_own_lock() {
    let touched = Cell::new(false);
    let mut mutex: spin_mutex::Mutex<u32> = spin_mutex::Mutex::new(0);
    assert_eq!(mutex.try_lock(|value| *value), Ok(0));
    assert_eq!(mutex.try_lock_mut(|value| { *value += 5; 255 }), Ok(255));
    assert_eq!(mutex.try_lock(|value| *value), Ok(5));
    let nested = mutex.try_lock(|_| mutex.try_lock(|_| touched.set(true)));
    assert_eq!(nested, Ok(Err(Held)));
    assert!(!touched.get());
    assert_eq!(mutex.try_lock(|value| *value), Ok(5));
}

#[test]
fn critical_section_try_lock_asks_its_own_guard() {
    let touched = Cell::new(false);
    let mut mutex: critical_section::Mutex<u32> = critical_section::Mutex::new(0);
    assert_eq!(mutex.try_lock(|value| *value), Ok(0));
    assert_eq!(mutex.try_lock_mut(|value| { *value += 5; 255 }), Ok(255));
    assert_eq!(mutex.try_lock(|value| *value), Ok(5));
    let nested = mutex.try_lock(|_| mutex.try_lock(|_| touched.set(true)));
    assert_eq!(nested, Ok(Err(Held)));
    assert!(!touched.get());
    assert_eq!(mutex.try_lock(|value| *value), Ok(5));
}

#[test]
fn try_lock_is_refused_while_a_guard_is_out() {
    let mutex: std_mutex::Mutex<u32> = std_mutex::Mutex::new(0);
    let hold = mutex.try_hold().expect("a new lock is free");
    assert_eq!(mutex.try_lock(|value| *value), Err(Held));
    assert_eq!(mutex.lock(hold, |value| *value), 0);
    assert_eq!(mutex.try_lock(|value| *value), Ok(0));
}

#[test]
fn try_shared_access_runs_only_with_a_guard() {
    let calls = Cell::new(0u32);
    let data = 10u32;
    let ran = try_shared_access(Some(()), &data, |value| {
        calls.set(calls.get() + 1);
        *value * 2
    });
    assert_eq!(ran, Ok(20));
    let refused = try_shared_access(None::<()>, &data, |value| {
        calls.set(calls.get() + 1);
        *value * 2
    });
    assert_eq!(refused, Err(Held));
    assert_eq!(calls.get(), 1);
}

#[test]
fn try_exclusive_access_runs_only_with_a_guard() {
    let mut data = 10u32;
    let ran = try_exclusive_access(Some(()), &mut data, |value| {
        *value += 1;
        "ran"
    });
    assert_eq!(ran, Ok("ran"));
    assert_eq!(data, 11);
    let refused = try_exclusive_access(None::<()>, &mut data, |value| {
        *value += 1;
        "ran"
    });
    assert_eq!(refused, Err(Held));
    assert_eq!(data, 11);
    assert_eq!(exclusive_access((), &mut data, |value| { *value += 1; *value }), 12);
}
