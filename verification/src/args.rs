//! The command line, and the ROM it selects.
use vstd::prelude::*;
use crate::constants::{RomInfo, SELECTED_ROM};

verus! {

/// The command-line arguments.
#[derive(Default, Debug)]
pub struct Args {
    /// Path of the rom
    pub rom: Option<String>,
    /// Directory containing ROM files.
    pub rom_dir: Option<String>,
    /// ROM file names to load
    pub rom_names: Vec<String>,
    /// Number of the rom to launch (dev mode only)
    pub rom_number: Option<usize>,
    pub demo: bool,
    pub dev: bool,
    pub pc: Option<String>,
    pub fm2: Option<String>,
    pub bk2: Option<String>,
}

fn clone_text(s: &Option<String>) -> (r: Option<String>)
    ensures
        r == *s,
{
    match s {
        Some(t) => Some(t.clone()),
        None => None,
    }
}

impl Clone for Args {
    /// A copy for a reboot: the ROM, its number and the demo and dev modes
    /// are not carried over.
    fn clone(&self) -> (r: Self)
        ensures
            r.rom is None,
            r.rom_dir == self.rom_dir,
            r.rom_names@.len() == self.rom_names@.len(),
            forall|i: int| 0 <= i < r.rom_names@.len() ==> r.rom_names@[i] == self.rom_names@[i],
            r.rom_number is None,
            !r.demo,
            !r.dev,
            r.pc == self.pc,
            r.fm2 == self.fm2,
            r.bk2 == self.bk2,
    {
        let mut names: Vec<String> = Vec::new();
        let mut i: usize = 0;
        while i < self.rom_names.len()
            invariant
                i <= self.rom_names.len(),
                names@.len() == i,
                forall|j: int| 0 <= j < i ==> names@[j] == self.rom_names@[j],
            decreases self.rom_names.len() - i,
        {
            names.push(self.rom_names[i].clone());
            i = i + 1;
        }
        Self {
            rom: None,
            rom_dir: clone_text(&self.rom_dir),
            rom_names: names,
            rom_number: None,
            demo: false,
            dev: false,
            pc: clone_text(&self.pc),
            fm2: clone_text(&self.fm2),
            bk2: clone_text(&self.bk2),
        }
    }
}

/// The index of the first ROM with id `id`, or 0 where there is none.
pub open spec fn rom_index(roms: Seq<RomInfo>, id: usize) -> int {
    if exists|i: int| 0 <= i < roms.len() && roms[i].id == id {
        choose|i: int| 0 <= i < roms.len() && roms[i].id == id && forall|j: int|
            0 <= j < i ==> roms[j].id != id
    } else {
        0
    }
}

/// The ROM to launch: the one named on the command line, else the ROM whose
/// id is the requested number (by default the usual one), else the first.
/// Where no ROM names were given, the chosen ROM's file becomes the one.
pub fn select_rom(args: &mut Args, roms: &Vec<RomInfo>) -> (r: RomInfo)
    requires
        roms.len() > 0,
    ensures
        ({
            let wanted = match old(args).rom_number {
                Some(n) => n,
                None => SELECTED_ROM,
            };
            let chosen = roms@[rom_index(roms@, wanted)];
            &&& match old(args).rom {
                Some(name) => r.file_name@ == name@ && r._name is None && r.id == 0,
                None => r.file_name == chosen.file_name && r._name == chosen._name && r.id
                    == chosen.id,
            }
            &&& final(args).rom_names@ == if old(args).rom_names@.len() == 0 {
                seq![chosen.file_name]
            } else {
                old(args).rom_names@
            }
            &&& final(args).rom == old(args).rom
            &&& final(args).rom_number == old(args).rom_number
        }),
{
    let wanted = match args.rom_number {
        Some(n) => n,
        None => SELECTED_ROM,
    };
    let mut index: usize = 0;
    let mut i: usize = 0;
    let mut found = false;
    while i < roms.len() && !found
        invariant
            i <= roms.len(),
            found ==> index < roms.len() && roms@[index as int].id == wanted && forall|j: int|
                0 <= j < index ==> roms@[j].id != wanted,
            !found ==> index == 0 && forall|j: int| 0 <= j < i ==> roms@[j].id != wanted,
        decreases roms.len() - i,
    {
        if roms[i].id == wanted {
            index = i;
            found = true;
        }
        i = i + 1;
    }
    proof {
        if found {
            assert(roms@[index as int].id == wanted);
            let c = choose|k: int|
                0 <= k < roms.len() && roms@[k].id == wanted && forall|j: int|
                    0 <= j < k ==> roms@[j].id != wanted;
            assert(c == index) by {
                if c < index {
                    assert(roms@[c].id != wanted);
                } else if c > index {
                    assert(roms@[index as int].id != wanted);
                }
            }
        }
    }
    assert(index as int == rom_index(roms@, wanted));
    if args.rom_names.len() == 0 {
        args.rom_names.push(roms[index].file_name.clone());
    }
    match &args.rom {
        Some(name) => RomInfo::n(0, name.as_str()),
        None => RomInfo {
            file_name: roms[index].file_name.clone(),
            _name: clone_text(&roms[index]._name),
            id: roms[index].id,
        },
    }
}

} // verus!
