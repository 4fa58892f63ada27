//! Cross-process mutual exclusion over a shared-memory header: a futex-style
//! lock word and a 64-bit payload at fixed byte offsets.
pub mod layout;
pub mod lock;
pub mod protocol;
pub mod region;
pub mod shared;
