//! A debouncer: a boolean signal that changes only once its timer says so.
use crate::math::binary64::{Binary64, ZERO_BITS};
use vstd::prelude::*;

verus! {

/// Which edges of a signal are debounced.
#[derive(Debug, Clone, Copy, PartialEq, Eq, Structural, Hash)]
pub enum DebounceType {
    Rising,
    Falling,
    Both,
}

/// A debouncer. Times are in seconds.
#[derive(Debug, Clone, Copy)]
pub struct Debouncer {
    debounce_time: Binary64,
    previous_time: Binary64,
    debounce_type: DebounceType,
    base_value: bool,
}

/// What a [`Debouncer`] holds.
pub struct DebouncerState {
    pub debounce_time: Binary64,
    pub previous_time: Binary64,
    pub debounce_type: DebounceType,
    pub base_value: bool,
}

impl DebouncerState {
    /// Whether the timer has run out: the time from `previous_time` to
    /// zero, which is `previous_time` negated, is at least `debounce_time`.
    pub open spec fn elapsed(self) -> bool {
        self.previous_time.spec_neg().spec_ge(self.debounce_time)
    }

    /// The state once an input that equals the base value has reset the
    /// timer.
    pub open spec fn settle(self, input: bool) -> Self {
        if input == self.base_value {
            DebouncerState { previous_time: Binary64 { bits: ZERO_BITS }, ..self }
        } else {
            self
        }
    }

    /// The value that `calculate` hands back for `input`: the input once
    /// the timer has run out, the base value until then.
    pub open spec fn output(self, input: bool) -> bool {
        if self.settle(input).elapsed() {
            input
        } else {
            self.base_value
        }
    }

    /// The state that `calculate` leaves behind for `input`. When the timer
    /// has run out and both edges are debounced, the input becomes the new
    /// base value and the timer is reset.
    pub open spec fn next(self, input: bool) -> Self {
        let settled = self.settle(input);
        if settled.elapsed() && settled.debounce_type == DebounceType::Both {
            DebouncerState {
                base_value: input,
                previous_time: Binary64 { bits: ZERO_BITS },
                ..settled
            }
        } else {
            settled
        }
    }
}

impl View for Debouncer {
    type V = DebouncerState;

    closed spec fn view(&self) -> DebouncerState {
        DebouncerState {
            debounce_time: self.debounce_time,
            previous_time: self.previous_time,
            debounce_type: self.debounce_type,
            base_value: self.base_value,
        }
    }
}

impl Debouncer {
    /// A debouncer whose timer stands at zero.
    #[must_use]
    pub fn new(debounce_time: Binary64, debounce_type: DebounceType, base_value: bool) -> (debouncer:
        Self)
        ensures
            debouncer@ == (DebouncerState {
                debounce_time,
                previous_time: Binary64 { bits: ZERO_BITS },
                debounce_type,
                base_value,
            }),
    {
        Self {
            debounce_time,
            previous_time: Binary64::from_bits(ZERO_BITS),
            debounce_type,
            base_value,
        }
    }

    /// Puts the timer back to zero.
    pub fn reset_timer(&mut self)
        ensures
            final(self)@ == (DebouncerState {
                previous_time: Binary64 { bits: ZERO_BITS },
                ..old(self)@
            }),
    {
        self.previous_time = Binary64::from_bits(ZERO_BITS);
    }

    /// Feeds one sample of the signal and returns the debounced value.
    pub fn calculate(&mut self, input: bool) -> (output: bool)
        ensures
            output == old(self)@.output(input),
            final(self)@ == old(self)@.next(input),
    {
        if input == self.base_value {
            self.reset_timer();
        }
        if self.has_elapsed() {
            if self.debounce_type == DebounceType::Both {
                self.base_value = input;
                self.reset_timer();
            }
            input
        } else {
            self.base_value
        }
    }

    /// Sets the base value and the time on the timer.
    pub fn reset(&mut self, value: bool, current_time: Binary64)
        ensures
            final(self)@ == (DebouncerState {
                base_value: value,
                previous_time: current_time,
                ..old(self)@
            }),
    {
        self.base_value = value;
        self.previous_time = current_time;
    }

    fn has_elapsed(&self) -> (elapsed: bool)
        ensures
            elapsed == self@.elapsed(),
    {
        self.previous_time.neg().ge(self.debounce_time)
    }
}

} // verus!
