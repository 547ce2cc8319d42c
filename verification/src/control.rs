//! The run-time control state shared between the keyboard reader and the
//! settings window: pausing the display and recording a new pause hotkey.

use vstd::prelude::*;

use crate::settings::Hotkey;

verus! {

/// Pause and hotkey-recording state.
pub struct PauseControl {
    /// While set, new chips are dropped.
    pub paused: bool,
    /// While set, the keyboard reader captures the next combination into `captured`.
    pub capture: bool,
    /// The recorded combination, until the settings window takes it.
    pub captured: Option<Hotkey>,
}

impl PauseControl {
    /// Neither paused nor recording, nothing recorded.
    pub fn new() -> (res: Self)
        ensures
            !res.paused,
            !res.capture,
            res.captured is None,
    {
        PauseControl { paused: false, capture: false, captured: None }
    }

    /// Starts recording: forgets an earlier recording and captures the next combination.
    pub fn begin_capture(&mut self)
        ensures
            final(self).capture,
            final(self).captured is None,
            final(self).paused == old(self).paused,
    {
        self.captured = None;
        self.capture = true;
    }

    /// Stops a recording; tells whether one was under way.
    pub fn cancel_capture(&mut self) -> (res: bool)
        ensures
            res == old(self).capture,
            !final(self).capture,
            final(self).captured == old(self).captured,
            final(self).paused == old(self).paused,
    {
        let was = self.capture;
        self.capture = false;
        was
    }

    /// Hands out the recorded combination, if any, and forgets it.
    pub fn take_captured(&mut self) -> (res: Option<Hotkey>)
        ensures
            res == old(self).captured,
            final(self).captured is None,
            final(self).capture == old(self).capture,
            final(self).paused == old(self).paused,
    {
        self.captured.take()
    }
}

} // verus!
