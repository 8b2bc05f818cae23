//! Mutual exclusion behind one contract.
//!
//! [`Mutex`] is the contract: wrap a value, run a closure with shared access
//! to it, run a closure with exclusive access to it. An access hands in a
//! pass, and may be asked for only with a pass that the mutex admits.
//! [`context_mutex::Mutex`] meets the contract for single-core targets: its
//! pass is the execution level that the reporter answered, as
//! [`context_mutex::check_level`] let it through; its `try_lock` and
//! `try_lock_mut` ask the reporter themselves, at every access.
//!
//! [`std_mutex::Mutex`], [`spin_mutex::Mutex`] and [`critical_section::Mutex`]
//! guard a value with a lock of the operating system, a spinlock and a
//! critical section: their `try_lock` and `try_lock_mut` ask the lock
//! themselves, and the pass for `lock` is the guard that taking the lock
//! gave. [`shared::Shared`] puts a mutex in a cell, so that a shared
//! reference is enough for exclusive access too.
//!
//! Nothing here panics. An accessor that asks for itself hands a refusal
//! back with the closure not called; one that takes a pass can be asked for
//! only once the decision has been won.

pub mod mutex;
pub mod types;

pub use mutex::Mutex;
pub use tests::{
    test_create, test_lock, test_lock_mut, test_recursive_lock, test_recursive_lock_mut,
};
pub use types::context_mutex;
pub use types::critical_section;
pub use types::guarded;
pub use types::shared;
pub use types::spin_mutex;
pub use types::std_mutex;
