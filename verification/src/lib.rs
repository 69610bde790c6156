//! Finding, at packaging time, the shared objects a native executable needs at
//! run time.
//!
//! The crate holds the decisions of two collaborating subsystems and none of
//! their input or output. A syscall tracer steps a child process through its
//! trace stops and reports every `open` and `openat` it issues; a
//! shared-library resolver walks the dynamic loader's search order and falls
//! back to asking the loader itself through a small compiled helper. Each of
//! them is written as a function from what the outside world has answered so
//! far to the next thing to ask of it, so that every rule is stated, and
//! proved, over plain values.

pub mod cstring;
pub mod error;
pub mod helper;
pub mod process;
pub mod resolver;
pub mod text;
pub mod trace;
