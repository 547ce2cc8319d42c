//! Debounced saving of the settings file.
//!
//! Every change applies at once, but dragging a number control changes it many
//! times a second; the file is written once a short delay after the first change
//! of a burst (the timer reads the settings as they are when it fires), or at once
//! when the window closes or the program quits.

use vstd::prelude::*;

verus! {

/// Delay of a debounced save, in milliseconds.
pub const SAVE_DEBOUNCE_MS: u64 = 400;

/// Whether a debounced save is pending.
#[derive(Debug, Clone, Copy, PartialEq, Eq, Structural)]
pub struct SaveDebounce {
    pub armed: bool,
}

/// A change: whether it starts the save timer, and the state after it.
pub open spec fn spec_schedule(s: SaveDebounce) -> (bool, SaveDebounce) {
    (!s.armed, SaveDebounce { armed: true })
}

/// The timer firing, or a flush: whether it writes, and the state after it.
pub open spec fn spec_write(s: SaveDebounce) -> (bool, SaveDebounce) {
    (s.armed, SaveDebounce { armed: false })
}

impl SaveDebounce {
    /// No save pending.
    pub fn new() -> (res: Self)
        ensures
            !res.armed,
    {
        SaveDebounce { armed: false }
    }

    /// A change happened: tells whether to start the save timer, which is so only
    /// where none is pending already.
    pub fn schedule(&mut self) -> (start_timer: bool)
        ensures
            (start_timer, *final(self)) == spec_schedule(*old(self)),
    {
        let start = !self.armed;
        self.armed = true;
        start
    }

    /// The save timer fired: tells whether to write, which is so unless a flush
    /// wrote in the meantime.
    pub fn timer_fired(&mut self) -> (write: bool)
        ensures
            (write, *final(self)) == spec_write(*old(self)),
    {
        let write = self.armed;
        self.armed = false;
        write
    }

    /// Write now, skipping the delay: tells whether a save was pending.
    pub fn flush(&mut self) -> (write: bool)
        ensures
            (write, *final(self)) == spec_write(*old(self)),
    {
        let write = self.armed;
        self.armed = false;
        write
    }
}

/// Law: from rest, a burst of two changes starts exactly one timer; a flush then
/// writes once, and the timer firing afterwards writes nothing more.
pub proof fn lemma_one_write_per_burst(s: SaveDebounce)
    requires
        !s.armed,
    ensures
        ({
            let (start1, s1) = spec_schedule(s);
            let (start2, s2) = spec_schedule(s1);
            let (flushed, s3) = spec_write(s2);
            let (fired, s4) = spec_write(s3);
            &&& start1
            &&& !start2
            &&& flushed
            &&& !fired
            &&& s4 == s
        }),
{
}

/// Law: every change leaves a save pending, so the next timer or flush writes it.
pub proof fn lemma_change_is_saved(s: SaveDebounce)
    ensures
        spec_write(spec_schedule(s).1).0,
{
}

/// `k` changes in a row: how many of them start the save timer, and the state after them.
pub open spec fn spec_changes(s: SaveDebounce, k: nat) -> (nat, SaveDebounce)
    decreases k,
{
    if k == 0 {
        (0, s)
    } else {
        let (started, before) = spec_changes(s, (k - 1) as nat);
        let (start, after) = spec_schedule(before);
        ((started + if start { 1nat } else { 0nat }) as nat, after)
    }
}

/// Law: any number `k >= 1` of changes from rest starts exactly one timer and leaves
/// one save pending; the first write after them (timer or flush) writes once, and a
/// second one writes nothing.
pub proof fn lemma_burst_writes_once(s: SaveDebounce, k: nat)
    requires
        !s.armed,
        k >= 1,
    ensures
        ({
            let (started, after) = spec_changes(s, k);
            let (first, rest) = spec_write(after);
            let (second, end) = spec_write(rest);
            &&& started == 1
            &&& after.armed
            &&& first
            &&& !second
            &&& end == s
        }),
    decreases k,
{
    if k > 1 {
        lemma_burst_writes_once(s, (k - 1) as nat);
        let (started, before) = spec_changes(s, (k - 1) as nat);
        assert(started == 1 && before.armed);
        assert(spec_schedule(before).0 == false);
        assert(spec_changes(s, k).0 == 1);
    } else {
        assert(spec_changes(s, 0).0 == 0);
        assert(spec_changes(s, 1).0 == 1);
    }
}

} // verus!
