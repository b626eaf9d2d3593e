//! Typed, verified core of a binding layer over a native library of one-
//! and two-electron molecular integrals.
//!
//! The native library owns all integral mathematics; this crate owns the
//! machinery around it: the row layout of the caller-provided atom and
//! basis-shell tables, the marshalling of an evaluation or
//! optimizer-constructor call into the flat arrays and counts the C
//! calling convention takes, and the lifecycle of the opaque optimizer
//! object that the native side allocates and frees. An unverified shell
//! performs the foreign calls themselves and consults this crate for
//! every decision those calls depend on.

pub mod call;
pub mod handle;
pub mod tables;
