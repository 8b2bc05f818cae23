pub mod cell;
pub mod context_mutex;
pub mod critical_section;
pub mod guarded;
pub mod shared;
pub mod spin_mutex;
pub mod std_mutex;
