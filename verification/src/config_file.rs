//! The emulator's settings file: where the ROMs are.
use vstd::prelude::*;

verus! {

/// The settings kept between runs.
#[derive(Clone, Debug)]
pub struct EmulatorConfig {
    pub rom_dir: Option<String>,
}

impl Default for EmulatorConfig {
    fn default() -> (r: Self)
        ensures
            r.rom_dir is None,
    {
        Self { rom_dir: None }
    }
}

} // verus!
