//! A bang-bang controller: full output below the set point, least output
//! at or above it.
use crate::math::binary64::{Binary64, ONE_BITS, ZERO_BITS};
use vstd::prelude::*;

verus! {

/// Encoding of `-1.0`.
pub const MINUS_ONE_BITS: u64 = 0xBFF0_0000_0000_0000;

/// A bang-bang controller.
#[derive(Debug, Clone, Copy)]
pub struct BangBangController {
    min_input: Binary64,
    max_input: Binary64,
    min_output: Binary64,
    max_output: Binary64,
    set_point: Binary64,
    tolerance: Binary64,
    enabled: bool,
}

/// What a [`BangBangController`] holds.
pub struct BangBangState {
    pub min_input: Binary64,
    pub max_input: Binary64,
    pub min_output: Binary64,
    pub max_output: Binary64,
    pub set_point: Binary64,
    pub tolerance: Binary64,
    pub enabled: bool,
}

impl BangBangState {
    /// Whether the input limits form a range: `min_input <= max_input`,
    /// neither of them NaN.
    pub open spec fn input_range(self) -> bool {
        self.min_input.spec_le(self.max_input)
    }

    /// The output for `measurement`: zero while disabled; else the
    /// measurement is limited to the input range, and the output is
    /// `max_output` where that is below the set point and `min_output`
    /// where it is not.
    pub open spec fn output(self, measurement: Binary64) -> Binary64 {
        if !self.enabled {
            Binary64 { bits: ZERO_BITS }
        } else if measurement.spec_clamp(self.min_input, self.max_input).spec_lt(self.set_point) {
            self.max_output
        } else {
            self.min_output
        }
    }
}

impl View for BangBangController {
    type V = BangBangState;

    closed spec fn view(&self) -> BangBangState {
        BangBangState {
            min_input: self.min_input,
            max_input: self.max_input,
            min_output: self.min_output,
            max_output: self.max_output,
            set_point: self.set_point,
            tolerance: self.tolerance,
            enabled: self.enabled,
        }
    }
}

impl BangBangController {
    /// An enabled controller with set point zero and with inputs and
    /// outputs limited to `[-1, 1]`.
    #[must_use]
    pub fn new(tolerance: Binary64) -> (controller: Self)
        ensures
            controller@ == (BangBangState {
                min_input: Binary64 { bits: MINUS_ONE_BITS },
                max_input: Binary64 { bits: ONE_BITS },
                min_output: Binary64 { bits: MINUS_ONE_BITS },
                max_output: Binary64 { bits: ONE_BITS },
                set_point: Binary64 { bits: ZERO_BITS },
                tolerance,
                enabled: true,
            }),
            controller@.input_range(),
    {
        Self {
            min_input: Binary64::from_bits(MINUS_ONE_BITS),
            max_input: Binary64::from_bits(ONE_BITS),
            min_output: Binary64::from_bits(MINUS_ONE_BITS),
            max_output: Binary64::from_bits(ONE_BITS),
            set_point: Binary64::from_bits(ZERO_BITS),
            tolerance,
            enabled: true,
        }
    }

    pub fn set_tolerance(&mut self, tolerance: Binary64)
        ensures
            final(self)@ == (BangBangState { tolerance, ..old(self)@ }),
    {
        self.tolerance = tolerance;
    }

    /// Returns the control output for `measurement`.
    #[must_use]
    pub fn calculate(&self, measurement: Binary64) -> (output: Binary64)
        requires
            self@.enabled ==> self@.input_range(),
        ensures
            output == self@.output(measurement),
    {
        if !self.enabled {
            return Binary64::from_bits(ZERO_BITS);
        }
        if measurement.clamp(self.min_input, self.max_input).lt(self.set_point) {
            self.max_output
        } else {
            self.min_output
        }
    }

    /// Sets the set point.
    pub fn set_set_point(&mut self, set_point: Binary64)
        ensures
            final(self)@ == (BangBangState { set_point, ..old(self)@ }),
    {
        self.set_point = set_point;
    }

    /// Enables or disables the controller.
    pub fn set_enabled(&mut self, enabled: bool)
        ensures
            final(self)@ == (BangBangState { enabled, ..old(self)@ }),
    {
        self.enabled = enabled;
    }

    /// Returns whether the controller is enabled.
    #[must_use]
    pub fn get_enabled(&self) -> (enabled: bool)
        ensures
            enabled == self@.enabled,
    {
        self.enabled
    }

    /// Returns the set point.
    #[must_use]
    pub fn get_set_point(&self) -> (set_point: Binary64)
        ensures
            set_point == self@.set_point,
    {
        self.set_point
    }

    /// Whether `calculate` may be called: the controller is disabled, or
    /// its input limits form a range.
    pub fn is_ready(&self) -> (ready: bool)
        ensures
            ready == (self@.enabled ==> self@.input_range()),
    {
        !self.enabled || self.min_input.le(self.max_input)
    }

    /// Sets the input and output limits.
    pub fn set_limits(
        &mut self,
        min_input: Binary64,
        max_input: Binary64,
        min_output: Binary64,
        max_output: Binary64,
    )
        ensures
            final(self)@ == (BangBangState {
                min_input,
                max_input,
                min_output,
                max_output,
                ..old(self)@
            }),
    {
        self.min_input = min_input;
        self.max_input = max_input;
        self.min_output = min_output;
        self.max_output = max_output;
    }

    /// Resets the controller: the set point goes back to zero.
    pub fn reset(&mut self)
        ensures
            final(self)@ == (BangBangState { set_point: Binary64 { bits: ZERO_BITS }, ..old(self)@ }),
    {
        self.set_point = Binary64::from_bits(ZERO_BITS);
    }
}

} // verus!
