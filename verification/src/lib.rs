use vstd::prelude::*;

pub mod component;
pub mod event;
pub mod layout;
pub mod model;
pub mod registry;

verus! {

/// Identifier of a mounted component: the key of the component registry.
///
/// Identifiers are unique per mount; mounting a second component under an
/// already-used identifier is refused.
#[derive(Clone, Copy, Debug, Hash, PartialEq, Eq, Structural)]
pub enum Id {
    PhantomListener,
    Label,
}

/// Application-level message produced by a component in response to an event.
///
/// `NoOp` is the terminal "nothing to do" message; processing it still marks
/// the screen dirty, but changes nothing else.
#[derive(Clone, Copy, Debug, PartialEq, Eq, Structural)]
pub enum Msg {
    AppClose,
    NoOp,
}

/// User-defined signal, injectable into the event stream out-of-band from
/// keyboard input.
#[derive(Clone, Copy, Debug, PartialEq, Eq, PartialOrd, Structural)]
pub enum AppEvent {
    ErrorInitialized,
}

} // verus!
