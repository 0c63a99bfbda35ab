use vstd::prelude::*;

verus! {

/// Virtual key code of the Control key.
pub const VK_CONTROL: i32 = 0x11;

/// Held with Control, stops playback and recording.
pub const STOP_KEY: i32 = 0x51;

/// Held with Control, plays the selected macro.
pub const PLAY_KEY: i32 = 0x50;

/// A macro file bound to a key combination.
#[derive(Clone, Debug, PartialEq, Eq)]
pub struct HotkeyMacro {
    pub hotkeys: Vec<i32>,
    pub path: Option<String>,
    pub repeat_if_held: bool,
}

/// What a hotkey watcher does after one poll.
#[derive(Clone, Copy, Debug, PartialEq, Eq, Structural)]
pub enum WatcherStep {
    /// The owner asked the watcher to stop.
    Exit,
    /// Play the bound macro now.
    Play,
    /// Nothing to do.
    Idle,
}

/// The decisions of one hotkey watcher. Unless the macro repeats while its
/// chord is held, the watcher waits for the chord to be released after a play
/// before it can fire again.
#[derive(Clone, Copy, Debug, PartialEq, Eq, Structural)]
pub struct HotkeyWatcher {
    pub repeat_if_held: bool,
    pub awaiting_release: bool,
}

/// Whether every key of a chord is down, given the state of each key.
pub fn hotkeys_pressed(key_down: &Vec<bool>) -> (r: bool)
    ensures
        r == forall|k: int| 0 <= k < key_down@.len() ==> #[trigger] key_down@[k],
{
    let mut i: usize = 0;
    while i < key_down.len()
        invariant
            i <= key_down@.len(),
            forall|k: int| 0 <= k < i ==> #[trigger] key_down@[k],
        decreases key_down@.len() - i,
    {
        if !key_down[i] {
            return false;
        }
        i = i + 1;
    }
    true
}

impl HotkeyWatcher {
    pub fn new(repeat_if_held: bool) -> (r: HotkeyWatcher)
        ensures
            r.repeat_if_held == repeat_if_held,
            !r.awaiting_release,
    {
        HotkeyWatcher { repeat_if_held, awaiting_release: false }
    }

    /// One poll: `stop_requested` is whether the owner asked to stop,
    /// `chord_down` whether the whole chord is held.
    pub fn poll(&mut self, stop_requested: bool, chord_down: bool) -> (r: WatcherStep)
        ensures
            final(self).repeat_if_held == old(self).repeat_if_held,
            r == (if stop_requested {
                WatcherStep::Exit
            } else if chord_down && !old(self).awaiting_release {
                WatcherStep::Play
            } else {
                WatcherStep::Idle
            }),
            final(self).awaiting_release == (if stop_requested {
                old(self).awaiting_release
            } else if old(self).awaiting_release {
                chord_down
            } else {
                chord_down && !old(self).repeat_if_held
            }),
    {
        if stop_requested {
            return WatcherStep::Exit;
        }
        if self.awaiting_release {
            self.awaiting_release = chord_down;
            return WatcherStep::Idle;
        }
        if chord_down {
            self.awaiting_release = !self.repeat_if_held;
            WatcherStep::Play
        } else {
            WatcherStep::Idle
        }
    }
}

} // verus!
