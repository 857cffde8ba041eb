//! Decision logic of a robot control library, verified with Verus.
//!
//! The library holds the parts of a mobile-robot geometry and control stack
//! that decide rather than compute: which branch of a numerical algorithm
//! applies, which element of a list is nearest, which lifecycle hooks run in
//! a control cycle. Real numbers enter as IEEE-754 binary64 bit patterns
//! ([`math::binary64::Binary64`]), whose order and sign are modelled exactly.
use vstd::prelude::*;

pub mod math;
pub mod robots;
pub mod vendor;

verus! {

/// The kinds of event a control loop reports.
#[derive(Debug, Clone, Copy, PartialEq, Eq, Structural, Hash)]
pub enum EventTypes {
    Init,
    Periodic,
    Overrun,
    End,
}

} // verus!
