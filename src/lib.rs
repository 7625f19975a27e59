//! Household fixtures modelled as small capability state machines.
pub mod house;
pub mod utils;
