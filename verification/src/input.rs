//! The input half of the unified event stream.
//!
//! The terminal decoder itself is an external collaborator; it hands the
//! core plain [`InputEvent`] values through an [`InputMonitor`], whose
//! sending end feeds the single channel the UI loop drains.

use vstd::prelude::*;

use std::sync::mpsc::Sender;

verus! {

/// A decoded key or terminal event.
#[derive(Clone, Copy, Debug, PartialEq, Eq, Structural)]
pub enum InputEvent {
    Char(char),
    Esc,
    Enter,
    Backspace,
    Right,
    Left,
    Resize,
    Up,
    Down,
    PageUp,
    PageDown,
    Home,
    End,
}

#[verifier::external_type_specification]
#[verifier::external_body]
#[verifier::reject_recursive_types(T)]
pub struct ExSender<T>(Sender<T>);

/// The producer handle of the input decoder: it owns the sending end of
/// the event channel.
pub struct InputMonitor {
    tx: Sender<InputEvent>,
}

impl InputMonitor {
    /// The channel end this monitor feeds.
    pub closed spec fn spec_sender(&self) -> Sender<InputEvent> {
        self.tx
    }

    pub fn new(tx: Sender<InputEvent>) -> (r: Self)
        ensures
            r.spec_sender() == tx,
    {
        InputMonitor { tx }
    }

    /// Relies on std::sync::mpsc::Sender::send: delivers the event to the
    /// receiving end of the channel; fails only once the receiver is gone.
    #[verifier::external_body]
    pub fn send(&self, event: InputEvent) -> (delivered: bool) {
        self.tx.send(event).is_ok()
    }
}

} // verus!
