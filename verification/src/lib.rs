//! Enemy-behaviour virtual machine for a bullet-hell game engine.
//!
//! The heart of the crate is an interpreter ("ECL runner") that drives one
//! enemy entity frame by frame through a pre-parsed bytecode program: a call
//! stack of register frames, a variable-redirection layer mapping sentinel
//! operands to registers or entity fields, time-gated dispatch filtered by
//! difficulty rank, and a numerically indexed table of special effects.
//!
//! Floating-point values flow through the engine as raw IEEE 754 single
//! bit patterns ([`fx32::Fx32`]); conversions and comparisons are computed
//! here in integer code, while transcendental arithmetic and the
//! pseudo-random generator live on the host side of an explicit
//! request/response boundary ([`host`]).

pub mod arith;
pub mod enemy;
pub mod fx32;
pub mod gr;
pub mod host;
pub mod laws;
pub mod prog;
pub mod runner;
pub mod step;
