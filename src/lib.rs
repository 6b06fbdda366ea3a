//! A small engine-agnostic 2D motion simulator: a scripted bouncer that
//! reflects off a boundary box under one of several policies, and an actor
//! moved one unit per active directional command.
//!
//! All lengths are fixed-point integers with `UNIT` sub-units per distance
//! unit; angles are whole steps of `TURN` per full turn. Trigonometry is
//! supplied by the caller as a table of unit direction vectors, one per
//! angle step.
use vstd::prelude::*;

pub mod geometry;
pub mod bouncer;
pub mod actor;
pub mod simulator;
pub mod laws;

verus! {

} // verus!
