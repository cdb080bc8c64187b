//! The reload watcher: a state machine that turns raw file-change
//! notifications into at most one reload at a time, coalescing bursts of
//! events inside a debounce window. The surrounding task performs the
//! actual file reads; this module decides, and its decisions are exact.

use vstd::prelude::*;

verus! {

/// How long, in milliseconds, a burst of file events is allowed to
/// settle before a reload starts.
pub const DEBOUNCE_MS: u64 = 500;

/// Where the watcher stands.
#[derive(Debug, Clone, PartialEq, Eq, Structural)]
pub enum WatcherState {
    /// Nothing to do; waiting for a file event.
    Idle,
    /// A file event arrived; the reload starts once the debounce window
    /// at `deadline` has elapsed.
    PendingReload { deadline: u64 },
    /// A reload is running. `again` records whether another file event
    /// arrived meanwhile, to be coalesced into the next pending reload.
    Reloading { again: bool },
}

/// What the watcher reacts to.
#[derive(Debug, Clone, PartialEq, Eq, Structural)]
pub enum WatcherEvent {
    /// The watched file was written; `at` is the current time in
    /// milliseconds.
    FileWrite { at: u64 },
    /// The clock reached `at`; lets a pending debounce window elapse.
    Elapsed { at: u64 },
    /// The running reload finished, successfully or not, at time `at`.
    Finished { at: u64 },
}

/// What the surrounding task must do after a step.
#[derive(Debug, Clone, PartialEq, Eq, Structural)]
pub enum WatcherAction {
    /// Nothing: keep waiting for events.
    Wait,
    /// Begin one reload: rebuild a snapshot and report back with
    /// `Finished`.
    StartReload,
}

/// The transition relation, written out in full: one state and one event
/// map to exactly one next state and one action.
pub open spec fn spec_step(s: WatcherState, e: WatcherEvent) -> (WatcherState, WatcherAction) {
    match (s, e) {
        // A first event opens the debounce window.
        (WatcherState::Idle, WatcherEvent::FileWrite { at }) => (
            WatcherState::PendingReload { deadline: sat_add(at, DEBOUNCE_MS as u64) },
            WatcherAction::Wait,
        ),
        // Further events inside the window collapse into the same pending
        // reload; the window is not extended.
        (WatcherState::PendingReload { deadline }, WatcherEvent::FileWrite { .. }) => (
            WatcherState::PendingReload { deadline },
            WatcherAction::Wait,
        ),
        // The window elapses: exactly one reload starts.
        (WatcherState::PendingReload { deadline }, WatcherEvent::Elapsed { at }) => {
            if at >= deadline {
                (WatcherState::Reloading { again: false }, WatcherAction::StartReload)
            } else {
                (WatcherState::PendingReload { deadline }, WatcherAction::Wait)
            }
        },
        // An event during a reload is remembered, never run concurrently.
        (WatcherState::Reloading { .. }, WatcherEvent::FileWrite { .. }) => (
            WatcherState::Reloading { again: true },
            WatcherAction::Wait,
        ),
        // A finished reload returns to rest, or opens the next window if
        // an event arrived meanwhile. A failed reload is not retried on
        // its own: without a new event the watcher stays idle.
        (WatcherState::Reloading { again }, WatcherEvent::Finished { at }) => {
            if again {
                (
                    WatcherState::PendingReload { deadline: sat_add(at, DEBOUNCE_MS as u64) },
                    WatcherAction::Wait,
                )
            } else {
                (WatcherState::Idle, WatcherAction::Wait)
            }
        },
        // Clock ticks and stale completions mean nothing elsewhere.
        (s, _) => (s, WatcherAction::Wait),
    }
}

/// Addition that stops at the top of the clock instead of wrapping.
pub open spec fn sat_add(a: u64, b: u64) -> u64 {
    if a + b > u64::MAX {
        u64::MAX
    } else {
        (a + b) as u64
    }
}

/// Advances the watcher by one event; behaves exactly as `spec_step`.
pub fn step(s: WatcherState, e: WatcherEvent) -> (r: (WatcherState, WatcherAction))
    ensures
        r == spec_step(s, e),
{
    match (s, e) {
        (WatcherState::Idle, WatcherEvent::FileWrite { at }) => (
            WatcherState::PendingReload { deadline: at.saturating_add(DEBOUNCE_MS) },
            WatcherAction::Wait,
        ),
        (WatcherState::PendingReload { deadline }, WatcherEvent::FileWrite { at: _ }) => (
            WatcherState::PendingReload { deadline },
            WatcherAction::Wait,
        ),
        (WatcherState::PendingReload { deadline }, WatcherEvent::Elapsed { at }) => {
            if at >= deadline {
                (WatcherState::Reloading { again: false }, WatcherAction::StartReload)
            } else {
                (WatcherState::PendingReload { deadline }, WatcherAction::Wait)
            }
        },
        (WatcherState::Reloading { again: _ }, WatcherEvent::FileWrite { at: _ }) => (
            WatcherState::Reloading { again: true },
            WatcherAction::Wait,
        ),
        (WatcherState::Reloading { again }, WatcherEvent::Finished { at }) => {
            if again {
                (
                    WatcherState::PendingReload { deadline: at.saturating_add(DEBOUNCE_MS) },
                    WatcherAction::Wait,
                )
            } else {
                (WatcherState::Idle, WatcherAction::Wait)
            }
        },
        (s, _) => (s, WatcherAction::Wait),
    }
}

/// How many reloads a sequence of events starts from a given state.
pub open spec fn reloads_started(s: WatcherState, es: Seq<WatcherEvent>) -> nat
    decreases es.len(),
{
    if es.len() == 0 {
        0
    } else {
        let (next, action) = spec_step(s, es[0]);
        (if action == WatcherAction::StartReload {
            1nat
        } else {
            0nat
        }) + reloads_started(next, es.skip(1))
    }
}

/// Law: two file events inside one debounce window, followed by the
/// window elapsing, start exactly one reload — the burst is coalesced.
pub proof fn lemma_debounce_coalesces(t1: u64, t2: u64, t3: u64)
    requires
        t1 <= t2,
        t2 < sat_add(t1, DEBOUNCE_MS as u64),
        t3 >= sat_add(t1, DEBOUNCE_MS as u64),
    ensures
        reloads_started(
            WatcherState::Idle,
            seq![
                WatcherEvent::FileWrite { at: t1 },
                WatcherEvent::FileWrite { at: t2 },
                WatcherEvent::Elapsed { at: t3 },
            ],
        ) == 1,
{
    let es = seq![
        WatcherEvent::FileWrite { at: t1 },
        WatcherEvent::FileWrite { at: t2 },
        WatcherEvent::Elapsed { at: t3 },
    ];
    let d = sat_add(t1, DEBOUNCE_MS as u64);
    let s1 = WatcherState::PendingReload { deadline: d };
    let tail1 = seq![WatcherEvent::FileWrite { at: t2 }, WatcherEvent::Elapsed { at: t3 }];
    let tail2 = seq![WatcherEvent::Elapsed { at: t3 }];
    assert(es.skip(1) =~= tail1);
    assert(tail1.skip(1) =~= tail2);
    assert(tail2.skip(1) =~= Seq::<WatcherEvent>::empty());
    assert(spec_step(WatcherState::Idle, es[0]) == (s1, WatcherAction::Wait));
    assert(spec_step(s1, tail1[0]) == (s1, WatcherAction::Wait));
    assert(spec_step(s1, tail2[0]) == (
        WatcherState::Reloading { again: false },
        WatcherAction::StartReload,
    ));
    assert(reloads_started(
        WatcherState::Reloading { again: false },
        Seq::<WatcherEvent>::empty(),
    ) == 0);
    assert(reloads_started(s1, tail2) == 1);
    assert(reloads_started(s1, tail1) == 1);
    assert(reloads_started(WatcherState::Idle, es) == 1);
}

/// Law: a reload only ever starts out of a pending debounce window, and
/// the state it starts from moves to `Reloading`; while a reload runs no
/// event starts another.
pub proof fn lemma_single_reload_in_flight(s: WatcherState, e: WatcherEvent)
    ensures
        spec_step(s, e).1 == WatcherAction::StartReload ==> (s is PendingReload && spec_step(
            s,
            e,
        ).0 is Reloading),
        s is Reloading && !(e is Finished) ==> spec_step(s, e).0 is Reloading && spec_step(s, e).1
            == WatcherAction::Wait,
{
}

} // verus!
