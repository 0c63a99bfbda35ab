use vstd::prelude::*;

use crate::hotkeys::HotkeyMacro;

verus! {

/// Normal playback speed, in thousandths.
pub const NORMAL_SPEED_PERMILLE: u32 = 1000;

/// How recording and playback behave.
///
/// `playback_speed_permille` is the playback speed in thousandths of normal
/// speed: every delay lasts `1000 / playback_speed_permille` times as long.
/// `repeat_times` is how often a macro is played, 0 meaning until cancelled.
#[derive(Clone, Debug, PartialEq, Eq)]
pub struct Settings {
    pub record_mouse_movement: bool,
    pub record_mouse_offsets: bool,
    pub playback_speed_permille: u32,
    pub ignore_delays: bool,
    pub repeat_times: u32,
    pub hotkeys: Vec<HotkeyMacro>,
}

impl Default for Settings {
    fn default() -> (r: Self)
        ensures
            r.record_mouse_movement,
            !r.record_mouse_offsets,
            r.playback_speed_permille == NORMAL_SPEED_PERMILLE,
            !r.ignore_delays,
            r.repeat_times == 1,
            r.hotkeys@.len() == 0,
    {
        Settings {
            record_mouse_movement: true,
            record_mouse_offsets: false,
            playback_speed_permille: NORMAL_SPEED_PERMILLE,
            ignore_delays: false,
            repeat_times: 1,
            hotkeys: Vec::new(),
        }
    }
}

} // verus!
