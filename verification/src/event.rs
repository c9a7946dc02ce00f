use vstd::prelude::*;

use crate::AppEvent;

verus! {

/// A key on the keyboard, as far as this application tells them apart.
#[derive(Clone, Copy, Debug, PartialEq, Eq, Structural)]
pub enum Key {
    Esc,
    Enter,
    Char(char),
}

/// The modifier keys held during a key press, as a bit set.
/// `bits == 0` means no modifier was held.
#[derive(Clone, Copy, Debug, PartialEq, Eq, Structural)]
pub struct KeyModifiers {
    pub bits: u8,
}

impl KeyModifiers {
    /// No modifier key held.
    pub fn none() -> (r: Self)
        ensures
            r.bits == 0,
    {
        KeyModifiers { bits: 0 }
    }
}

/// A key press together with the modifiers held during it.
#[derive(Clone, Copy, Debug, PartialEq, Eq, Structural)]
pub struct KeyEvent {
    pub code: Key,
    pub modifiers: KeyModifiers,
}

/// A raw event delivered by the event source: either keyboard input or a
/// user-defined application signal injected out-of-band.
#[derive(Clone, Copy, Debug, PartialEq, Eq, Structural)]
pub enum Event {
    Keyboard(KeyEvent),
    User(AppEvent),
}

/// The guard condition of a subscription clause. The only guard this
/// application uses is `Always`, which holds for every event.
#[derive(Clone, Copy, Debug, PartialEq, Eq, Structural)]
pub enum SubGuard {
    Always,
}

pub open spec fn guard_holds(g: SubGuard) -> bool {
    match g {
        SubGuard::Always => true,
    }
}

/// A subscription clause: an event pattern paired with a guard condition.
/// A mounted component receives exactly the events that match at least one
/// of its clauses.
#[derive(Clone, Copy, Debug, PartialEq, Eq, Structural)]
pub struct Subscription {
    pub pattern: Event,
    pub guard: SubGuard,
}

/// An event matches a clause when it equals the clause's pattern, both in
/// discriminant and in payload, and the guard holds.
pub open spec fn sub_matches(s: Subscription, ev: Event) -> bool {
    s.pattern == ev && guard_holds(s.guard)
}

impl Subscription {
    pub fn new(pattern: Event, guard: SubGuard) -> (r: Self)
        ensures
            r == (Subscription { pattern, guard }),
    {
        Subscription { pattern, guard }
    }

    /// Decides whether the given event matches this clause.
    pub fn matches(&self, ev: &Event) -> (r: bool)
        ensures
            r == sub_matches(*self, *ev),
    {
        let guard_ok = match self.guard {
            SubGuard::Always => true,
        };
        self.pattern == *ev && guard_ok
    }
}

} // verus!
