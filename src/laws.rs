//! Properties of the debouncing rule, stated over `DebounceState::next`,
//! which is what `Debouncer::update` computes.

use vstd::prelude::*;

verus! {

use crate::DebounceState;

/// A sample equal to the held value leaves the state as it is, whatever the
/// tick and freeze length.
pub proof fn lemma_same_sample_keeps_state<T>(s: DebounceState<T>, tick: u64, freeze_ticks: u32)
    ensures
        s.next(s.value, tick, freeze_ticks) == s,
{
}

/// Before any change was accepted, the first differing sample is accepted at
/// once, whatever the freeze length.
pub proof fn lemma_first_change_is_immediate<T>(
    s: DebounceState<T>,
    raw: T,
    tick: u64,
    freeze_ticks: u32,
)
    requires
        s.last_change is None,
        raw != s.value,
    ensures
        s.next(raw, tick, freeze_ticks) == (DebounceState { value: raw, last_change: Some(tick) }),
{
}

/// After a change accepted at `t0`, a differing sample at a tick in
/// `[t0, t0 + freeze_ticks)` is ignored, and one at `t0 + freeze_ticks` or
/// later is accepted.
pub proof fn lemma_freeze_window<T>(
    s: DebounceState<T>,
    t0: u64,
    raw: T,
    tick: u64,
    freeze_ticks: u32,
)
    requires
        s.last_change == Some(t0),
        raw != s.value,
    ensures
        t0 <= tick < t0 + freeze_ticks ==> s.next(raw, tick, freeze_ticks) == s,
        tick >= t0 + freeze_ticks ==> s.next(raw, tick, freeze_ticks) == (DebounceState {
            value: raw,
            last_change: Some(tick),
        }),
{
}

/// After a change accepted at `t0`, a differing sample is accepted exactly
/// when its tick is at least `t0 + freeze_ticks`: the boundary tick itself is
/// accepted and every earlier one is refused.
pub proof fn lemma_freeze_boundary<T>(
    s: DebounceState<T>,
    t0: u64,
    raw: T,
    tick: u64,
    freeze_ticks: u32,
)
    requires
        s.last_change == Some(t0),
        raw != s.value,
    ensures
        s.next(raw, tick, freeze_ticks).value == raw <==> tick >= t0 + freeze_ticks,
{
}

} // verus!
