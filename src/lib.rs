//! A named, cross-process wake primitive: naming, the interpretation of what the
//! operating system answers, and the lifetime discipline of a callback
//! registration, with the system calls themselves left to the caller.

pub mod event;
pub mod laws;
pub mod name;
pub mod outcome;
