//! Capability state machines that fixtures are built from.
pub mod lockable;
pub mod occupiable;
pub mod openable;
