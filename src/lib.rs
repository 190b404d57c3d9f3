//! A debouncer for sampled signals: a new input value becomes the output
//! only once the previous accepted change is at least `freeze_ticks` old.
//! Ticks are supplied by the caller.

use vstd::prelude::*;

mod laws;

pub use laws::{
    lemma_first_change_is_immediate, lemma_freeze_boundary, lemma_freeze_window,
    lemma_same_sample_keeps_state,
};

verus! {

use vstd::laws_eq::obeys_concrete_eq;

/// The abstract state of a debouncer: the accepted output and the tick of the
/// last change accepted through a sample (`None` before the first one).
pub struct DebounceState<T> {
    pub value: T,
    pub last_change: Option<u64>,
}

impl<T> DebounceState<T> {
    /// Whether a sample that differs from the held value may replace it at
    /// `tick`: always before the first change, and otherwise once
    /// `freeze_ticks` ticks have passed since the last one.
    pub open spec fn accepts(self, tick: u64, freeze_ticks: u32) -> bool {
        match self.last_change {
            None => true,
            Some(t0) => tick >= t0 + freeze_ticks,
        }
    }

    /// The state after sampling `raw` at `tick`.
    pub open spec fn next(self, raw: T, tick: u64, freeze_ticks: u32) -> DebounceState<T> {
        if raw == self.value || !self.accepts(tick, freeze_ticks) {
            self
        } else {
            DebounceState { value: raw, last_change: Some(tick) }
        }
    }
}

/// Debounces one signal: holds the accepted value and the tick at which it
/// was last changed by a sample.
#[derive(Debug)]
pub struct Debouncer<T> {
    value: T,
    last_change: Option<u64>,
}

impl<T> View for Debouncer<T> {
    type V = DebounceState<T>;

    closed spec fn view(&self) -> DebounceState<T> {
        DebounceState { value: self.value, last_change: self.last_change }
    }
}

impl<T: Default + Copy + PartialEq> Debouncer<T> {
    /// A debouncer holding `T::default()` that has not accepted any change.
    pub fn new() -> (r: Self)
        ensures
            r@.last_change is None,
            call_ensures(T::default, (), r@.value),
    {
        Debouncer { value: T::default(), last_change: None }
    }

    /// Feeds the sample `value` taken at `tick` and returns the accepted value.
    ///
    /// A sample equal to the held value changes nothing. A differing one is
    /// accepted, and `tick` recorded, if no change was accepted before or if
    /// `tick >= last_change + freeze_ticks`; otherwise it is ignored.
    /// The comparison is made on unbounded integers, so it cannot overflow.
    pub fn update(&mut self, value: T, tick: u64, freeze_ticks: u32) -> (r: T)
        ensures
            r == final(self)@.value,
            obeys_concrete_eq::<T>() ==> final(self)@ == old(self)@.next(value, tick, freeze_ticks),
            final(self)@ == old(self)@ || (final(self)@ == (DebounceState {
                value,
                last_change: Some(tick),
            }) && old(self)@.accepts(tick, freeze_ticks)),
    {
        proof {
            reveal(obeys_concrete_eq);
        }
        if value == self.value {
            return self.value;
        }
        match self.last_change {
            Some(last_change) => {
                if tick >= last_change && tick - last_change >= freeze_ticks as u64 {
                    self.value = value;
                    self.last_change = Some(tick);
                }
            },
            None => {
                self.value = value;
                self.last_change = Some(tick);
            },
        }
        self.value
    }

    /// The accepted value.
    pub fn value(&self) -> (r: T)
        ensures
            r == self@.value,
    {
        self.value
    }

    /// Overrides the accepted value; the tick of the last change stays as it
    /// was, so the freeze window is not restarted.
    pub fn set_value(&mut self, value: T)
        ensures
            final(self)@ == (DebounceState { value, last_change: old(self)@.last_change }),
    {
        self.value = value;
    }

    /// The tick of the last change accepted through a sample, or `None` if
    /// there was none.
    pub fn last_change(&self) -> (r: Option<u64>)
        ensures
            r == self@.last_change,
    {
        self.last_change
    }
}

impl<T: Default + Copy + PartialEq> Default for Debouncer<T> {
    fn default() -> (r: Self)
        ensures
            r@.last_change is None,
            call_ensures(T::default, (), r@.value),
    {
        Self::new()
    }
}

} // verus!
