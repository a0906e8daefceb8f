//! Keyboard input as plain values.
//!
//! The event loop waits a bounded 16 ms for one terminal event per tick.
//! Only key presses matter to the dashboard; releases, repeats and every
//! other kind of event are handed on as `None`.  The two calls into
//! `crossterm` stand behind trusted wrappers; everything that decides on a
//! key is verified.

use vstd::prelude::*;
use crossterm::event::Event;
use crossterm::event::KeyCode;
use crossterm::event::KeyEventKind;

verus! {

/// How long one tick waits for an input event, in milliseconds.
pub const EVENT_POLL_MS: u64 = 16;

/// A key press, reduced to what the dispatcher can act on.
#[derive(Clone, Copy, PartialEq, Eq, Structural, Debug)]
pub enum KeyPress {
    /// A printable character key.
    Char(char),
    /// Any other key.
    Other,
}

/// A failure of the terminal input channel.  Input errors are fatal: the
/// loop propagates them to the caller, which tears the session down.
#[derive(Clone, PartialEq, Eq, Debug)]
pub struct InputError {
    pub message: String,
}

/// Relies on `crossterm::event::poll`: reports whether an event is ready,
/// waiting at most `timeout_ms`.  Whether one is ready depends on the user,
/// so nothing is promised of the answer.
#[verifier::external_body]
pub(crate) fn poll_input(timeout_ms: u64) -> (r: Result<bool, InputError>) {
    match crossterm::event::poll(std::time::Duration::from_millis(timeout_ms)) {
        Ok(ready) => Ok(ready),
        Err(e) => Err(InputError { message: format!("{e}") }),
    }
}

/// Relies on `crossterm::event::read`: returns the next terminal event.
/// A key press comes back as `Some`, every other event as `None`.  What was
/// pressed depends on the user, so nothing is promised of the value.
#[verifier::external_body]
pub(crate) fn read_input() -> (r: Result<Option<KeyPress>, InputError>) {
    match crossterm::event::read() {
        Ok(Event::Key(k)) => match k.kind {
            KeyEventKind::Press => match k.code {
                KeyCode::Char(c) => Ok(Some(KeyPress::Char(c))),
                _ => Ok(Some(KeyPress::Other)),
            },
            _ => Ok(None),
        },
        Ok(_) => Ok(None),
        Err(e) => Err(InputError { message: format!("{e}") }),
    }
}

} // verus!
