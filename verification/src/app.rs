//! What the user interface shares with the emulator and sends it.
use vstd::prelude::*;
use crate::constants::RomInfo;

verus! {

/// The window title and the names shown in the user interface.
pub struct SharedState {
    pub title: String,
    pub _joypad1: String,
    pub rom_name: String,
}

impl Default for SharedState {
    fn default() -> (r: Self)
        ensures
            r.title@ == seq!['C', 'e', 'd', 'N', 'E', 'S'],
            r._joypad1@ == seq!['J', 'o', 'y', 'p', 'a', 'd', ' ', '1'],
            r.rom_name@ == Seq::<char>::empty(),
    {
        proof {
            reveal_strlit("CedNES");
            reveal_strlit("Joypad 1");
        }
        Self {
            title: "CedNES".to_owned(),
            _joypad1: "Joypad 1".to_owned(),
            rom_name: String::new(),
        }
    }
}

/// Requests from the user interface to the emulator.
pub enum ToEmulatorMessage {
    Reboot(RomInfo),
    Pause(bool),
    SoundPulse1(bool),
    SoundPulse2(bool),
    SoundTriangle(bool),
    SoundNoise(bool),
    SoundDmc(bool),
    Debug,
}

/// The state of the sound waveform canvas: none.
#[derive(Default, Clone)]
pub struct CanvasState;

} // verus!
