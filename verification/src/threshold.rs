//! The threshold picker: a counter between 1 and the number of keys of a
//! spending path, moved one step at a time by two buttons.

use vstd::prelude::*;
use crate::text::{decimal, ratio_string, ratio_text};

verus! {

/// A press on one of the two buttons of the picker.
#[derive(Debug, Clone, Copy, PartialEq, Eq, Structural)]
pub enum Event {
    IncrementPressed,
    DecrementPressed,
}

/// The threshold that `event` asks for, starting from `value` with `max`
/// keys, or `None` when the press changes nothing (raising past `max`, or
/// lowering below 1).
pub open spec fn spec_step(value: usize, max: usize, event: Event) -> Option<usize> {
    match event {
        Event::IncrementPressed => if value < max {
            Some((value + 1) as usize)
        } else {
            None
        },
        Event::DecrementPressed => if value > 1 {
            Some((value - 1) as usize)
        } else {
            None
        },
    }
}

/// The new threshold after `event`, or `None` when the press changes nothing.
pub fn threshold_step(value: usize, max: usize, event: Event) -> (r: Option<usize>)
    ensures
        r == spec_step(value, max, event),
{
    match event {
        Event::IncrementPressed => {
            if value < max {
                Some(value.saturating_add(1))
            } else {
                None
            }
        },
        Event::DecrementPressed => {
            if value > 1 {
                Some(value.saturating_sub(1))
            } else {
                None
            }
        },
    }
}

/// The threshold picker: the current threshold, the number of keys, and
/// what to report when the threshold changes.
pub struct ThresholdInput<F> {
    value: usize,
    max: usize,
    on_change: F,
}

/// A picker for `value` out of `max` keys that reports changes through
/// `on_change`.
pub fn threshsold_input<F>(value: usize, max: usize, on_change: F) -> (t: ThresholdInput<F>)
    ensures
        t.spec_value() == value,
        t.spec_max() == max,
        t.spec_on_change() == on_change,
{
    ThresholdInput::new(value, max, on_change)
}

impl<F> ThresholdInput<F> {
    /// The current threshold.
    pub closed spec fn spec_value(&self) -> usize {
        self.value
    }

    /// The number of keys.
    pub closed spec fn spec_max(&self) -> usize {
        self.max
    }

    /// What the picker reports a change through.
    pub closed spec fn spec_on_change(&self) -> F {
        self.on_change
    }

    /// A picker for `value` out of `max` keys that reports changes through
    /// `on_change`.
    pub fn new(value: usize, max: usize, on_change: F) -> (t: Self)
        ensures
            t.spec_value() == value,
            t.spec_max() == max,
            t.spec_on_change() == on_change,
    {
        ThresholdInput { value, max, on_change }
    }

    /// The current threshold.
    pub fn value(&self) -> (v: usize)
        ensures
            v == self.spec_value(),
    {
        self.value
    }

    /// The number of keys.
    pub fn max(&self) -> (m: usize)
        ensures
            m == self.spec_max(),
    {
        self.max
    }

    /// Handles a press: when it changes the threshold, the message that
    /// `on_change` makes of the new threshold; otherwise `None`.
    pub fn update<M>(&self, event: Event) -> (r: Option<M>) where F: Fn(usize) -> M
        requires
            forall|v: usize| call_requires(self.spec_on_change(), (v,)),
        ensures
            match spec_step(self.spec_value(), self.spec_max(), event) {
                Some(v) => r is Some && call_ensures(self.spec_on_change(), (v,), r->0),
                None => r is None,
            },
    {
        match threshold_step(self.value, self.max, event) {
            Some(v) => {
                assert(call_requires(self.spec_on_change(), (v,)));
                Some((self.on_change)(v))
            },
            None => None,
        }
    }

    /// The counter text `value/max`.
    pub fn label(&self) -> (s: String)
        ensures
            s@ == ratio_text(self.spec_value() as nat, self.spec_max() as nat),
            s@ == decimal(self.spec_value() as nat) + seq!['/'] + decimal(self.spec_max() as nat),
    {
        ratio_string(self.value as u64, self.max as u64)
    }
}

/// Raising works exactly while the threshold is below the number of keys
/// and adds one; lowering works exactly while the threshold is above 1 and
/// takes one away.
pub proof fn lemma_step_cases(value: usize, max: usize)
    ensures
        value < max ==> spec_step(value, max, Event::IncrementPressed) == Some(
            (value + 1) as usize,
        ),
        value >= max ==> spec_step(value, max, Event::IncrementPressed) is None,
        value > 1 ==> spec_step(value, max, Event::DecrementPressed) == Some((value - 1) as usize),
        value <= 1 ==> spec_step(value, max, Event::DecrementPressed) is None,
{
}

/// A press never takes a threshold that lies between 1 and the number of
/// keys out of that range.
pub proof fn lemma_step_stays_in_range(value: usize, max: usize, event: Event)
    requires
        1 <= value <= max,
    ensures
        spec_step(value, max, event) matches Some(v) ==> 1 <= v <= max,
{
}

/// Raising the threshold and then lowering it gives back the threshold it
/// started from, and so does lowering and then raising.
pub proof fn lemma_step_undo(value: usize, max: usize)
    requires
        1 <= value <= max,
    ensures
        spec_step(value, max, Event::IncrementPressed) matches Some(v) ==> spec_step(
            v,
            max,
            Event::DecrementPressed,
        ) == Some(value),
        spec_step(value, max, Event::DecrementPressed) matches Some(v) ==> spec_step(
            v,
            max,
            Event::IncrementPressed,
        ) == Some(value),
{
}

} // verus!
