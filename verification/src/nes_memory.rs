use vstd::prelude::*;
use crate::bits::{set_bits_with_mask, with_mask};
use crate::internal_registers::IR;
use crate::joypad::Joypad;
use crate::mappers::mapper_base::{MapperBase, VramType};
use crate::memory::Memory;
use crate::ppu2::Ppu2;
use crate::ppu_ctrl::{PpuCtrl, ppu_ctrl_of};
use crate::ppu_mask::PpuMask;
use crate::rom::Mirroring;

verus! {

pub const MEMORY_SIZE: usize = 65536;

/// Bit of $2002 that reports a sprite overflow.
pub const SPRITE_OVERFLOW: u8 = 5;

/// The PPU address that `a` reaches: the 14-bit bus, with $3000-$3EFF mirroring
/// $2000-$2EFF and $3F20-$3FFF mirroring the 32 palette bytes at $3F00-$3F1F.
pub open spec fn ppu_mirror_of(a: u16) -> u16 {
    let address = a & 0x3fff;
    if 0x3000 <= address < 0x3f00 {
        (address - 0x1000) as u16
    } else if 0x3f00 <= address {
        (0x3f00 + (address & 0x1f)) as u16
    } else {
        address
    }
}

/// Bit facts of the CPU and PPU address mirrors.
pub proof fn lemma_mirror_bits(address: u16, u: usize)
    by (bit_vector)
    ensures
        0x2000 <= address < 0x4000 ==> 0x2000 <= address & 0x2007 <= 0x2007,
        0x3f00 <= u <= 0x3fff ==> ppu_mirror_of(u as u16) == 0x3f00 + (u & 0x1f)
            && ((0x3f00 + (u & 0x1f)) as u16) & 0x1f == u & 0x1f,
        u < 0x3f00 ==> ((u as u16) & 0x3fff) as usize == u,
        u < 16 ==> ppu_mirror_of((0x3f10 + u) as u16) == 0x3f10 + u
            && ((0x3f10 + u) as usize) & 0x1f == 16 + u,
{
}

/// The CPU address that `address` reaches: 2 KB of RAM mirrored up to $1FFF and the
/// eight PPU registers mirrored up to $3FFF.
pub open spec fn cpu_mirror_of(address: u16) -> u16 {
    if address < 0x2000 {
        address & 0x7ff
    } else if address < 0x4000 {
        address & 0x2007
    } else {
        address
    }
}

/// The addresses whose reads or writes have side effects: the PPU registers,
/// OAM DMA and the first controller port.
pub open spec fn is_register_address(address: u16) -> bool {
    (0x4014 <= address <= 0x4016) || (0x2000 <= address <= 0x2008)
}

/// The palette byte that shares storage with `address`: the backdrop entries
/// $3F00/$3F04/$3F08/$3F0C and $3F10/$3F14/$3F18/$3F1C mirror each other.
pub open spec fn palette_mirror_of(address: usize) -> Option<usize> {
    if address == 0x3f00 { Some(0x3f10usize) }
    else if address == 0x3f04 { Some(0x3f14usize) }
    else if address == 0x3f08 { Some(0x3f18usize) }
    else if address == 0x3f0c { Some(0x3f1cusize) }
    else if address == 0x3f10 { Some(0x3f00usize) }
    else if address == 0x3f14 { Some(0x3f04usize) }
    else if address == 0x3f18 { Some(0x3f08usize) }
    else if address == 0x3f1c { Some(0x3f0cusize) }
    else { None }
}

/// The PPU's open bus, 0 when no PPU is attached.
pub open spec fn open_bus_of(ppu: Option<Ppu2>) -> u8 {
    match ppu {
        Some(p) => p.open_bus,
        None => 0,
    }
}

/// `t` after a write of `value` to $2000: `t: ...GH.. ........ <- d: ......GH`.
pub open spec fn ctrl_write(ir: IR, value: u8) -> IR {
    IR { t: with_mask(ir.t, value as u16, 0b11, 10), ..ir }
}

/// The registers after a write of `value` to $2005.
/// First write: `t: ....... ...ABCDE <- d: ABCDE...`, `x: FGH <- d: .....FGH`.
/// Second write: `t: FGH..AB CDE..... <- d: ABCDEFGH`.
pub open spec fn scroll_write(ir: IR, value: u8) -> IR {
    if !ir.w {
        IR {
            t: with_mask(ir.t, (value as u16) >> 3u16, 0b11111, 0),
            x: (ir.x & !0b111u8) | (value & 0b111),
            w: true,
            ..ir
        }
    } else {
        IR {
            t: (ir.t & 0b000_11_00000_11111) | (((value as u16) & 0b111) << 12u16)
                | ((((value as u16) & 0b1111_1000) >> 3u16) << 5u16),
            w: false,
            ..ir
        }
    }
}

/// The registers after a write of `value` to $2006.
/// First write: `t: .CDEFGH ........ <- d: ..CDEFGH`, bit 14 of `t` cleared.
/// Second write: `t: ....... ABCDEFGH <- d: ABCDEFGH`, then `v <- t`.
pub open spec fn addr_write(ir: IR, value: u8) -> IR {
    if !ir.w {
        IR { t: with_mask(ir.t, value as u16, 0b11_1111, 8) & 0b1011_1111_1111_1111, w: true, ..ir }
    } else {
        let t = (ir.t & 0xff00) | (value as u16);
        IR { t, v: t, w: false, ..ir }
    }
}

/// The `v` after a $2007 access: advanced by the increment of PPUCTRL, 14 bits kept.
pub open spec fn data_increment(ir: IR, increment: u16) -> IR {
    IR { v: (((ir.v + increment) % 0x10000) % 0x4000) as u16, ..ir }
}

/// Slot of OAM that byte `i` of a DMA starting at OAM address `offset` lands in.
pub open spec fn dma_slot(offset: u8, i: int) -> int {
    (offset + i) % 256
}

/// The CPU's view of the console: 2 KB of RAM and its mirrors, the PPU registers,
/// the controller port and the cartridge.
pub struct NesMemory {
    pub ir: IR,
    /// While set, register accesses behave as plain memory.
    pub init: bool,
    /// The non-mapped CPU memory below $8000.
    pub memory: Vec<u8>,
    pub ppu_ctrl: PpuCtrl,
    pub ppu_mask: PpuMask,
    pub joypad: Joypad,
    /// The PPU behind $2002, $2004, $2007 and OAM DMA.
    pub ppu: Option<Ppu2>,
    /// The PPUDATA read buffer.
    pub internal_buffer: u8,
    pub mapper: MapperBase,
}

impl NesMemory {
    /// The PPUCTRL fields hold values that a byte written to $2000 decodes to.
    pub open spec fn ctrl_wf(ctrl: PpuCtrl) -> bool {
        &&& ctrl.sprite_height == 8 || ctrl.sprite_height == 16
        &&& ctrl.background_table == 0 || ctrl.background_table == 0x1000
        &&& ctrl.sprite_table == 0 || ctrl.sprite_table == 0x1000
        &&& ctrl.vram_increment == 1 || ctrl.vram_increment == 0x20
    }

    pub open spec fn wf(self) -> bool {
        &&& self.memory@.len() == MEMORY_SIZE
        &&& self.mapper.wf()
        &&& Self::ctrl_wf(self.ppu_ctrl)
        &&& (self.ppu matches Some(p) ==> p.wf())
    }

    pub fn new(mapper: MapperBase, joypad: Joypad, ppu: Ppu2) -> (r: Self)
        requires
            mapper.wf(),
            ppu.wf(),
        ensures
            r.wf(),
            r.init,
            r.ir == (IR { v: 0, t: 0, x: 0, w: false }),
            r.memory@ == Seq::new(MEMORY_SIZE as nat, |i: int| 0u8),
            r.ppu_ctrl == ppu_ctrl_of(0),
            r.ppu_mask == PpuMask::new_spec(0),
            r.joypad == joypad,
            r.ppu == Some(ppu),
            r.internal_buffer == 0,
            r.mapper == mapper,
    {
        let memory = vec![0u8; MEMORY_SIZE];
        assert(memory@ =~= Seq::new(MEMORY_SIZE as nat, |i: int| 0u8));
        Self {
            ir: IR { v: 0, t: 0, x: 0, w: false },
            init: true,
            ppu_ctrl: PpuCtrl::new(0),
            ppu_mask: PpuMask::new(0),
            memory,
            joypad,
            ppu: Some(ppu),
            internal_buffer: 0,
            mapper,
        }
    }

    /// Memory with the registers live, a blank NROM board, a released controller and a
    /// fresh PPU.
    pub fn new_for_testing() -> (r: Self)
        ensures
            r.wf(),
            !r.init,
            r.ir == (IR { v: 0, t: 0, x: 0, w: false }),
            r.memory@ == Seq::new(MEMORY_SIZE as nat, |i: int| 0u8),
            r.ppu_ctrl == ppu_ctrl_of(0),
            r.ppu_mask == PpuMask::new_spec(0),
            r.joypad.status() == 0,
            r.joypad.index() == 0,
            r.ppu is Some,
            r.internal_buffer == 0,
    {
        let mut result = NesMemory::new(MapperBase::default(), Joypad::new(), Ppu2::default());
        result.init = false;
        result
    }

    pub fn is_vbl_enabled(&self) -> (r: bool)
        requires
            self.wf(),
        ensures
            r == (self.memory@[0x2000] & 0x80 != 0),
    {
        (self.memory[0x2000] & 0b1000_0000) != 0
    }

    pub fn cpu_mirrorring(address: u16) -> (r: u16)
        ensures
            r == cpu_mirror_of(address),
            address < 0x2000 ==> r < 0x800,
            0x2000 <= address < 0x4000 ==> 0x2000 <= r <= 0x2007,
    {
        if address < 0x2000 {
            proof {
                crate::bit_facts::lemma_u16_masks();
                assert(address & 0x7ff <= 0x7ff);
            }
            address & 0b00000111_11111111
        } else if address < 0x4000 {
            proof {
                lemma_mirror_bits(address, 0);
            }
            address & 0b00100000_00000111
        } else {
            address
        }
    }

    pub fn ppu_mirrorring(a: u16) -> (r: u16)
        ensures
            r == ppu_mirror_of(a),
            r < 0x3f20,
            r < 0x2000 <==> (a & 0x3fff) < 0x2000,
            r < 0x2000 ==> r == a & 0x3fff,
    {
        let address = a & 0x3fff;
        proof {
            crate::bit_facts::lemma_u16_masks();
            assert(a & 0x3fff <= 0x3fff && (a & 0x3fff) & 0x1f <= 0x1f);
        }
        if 0x3000 <= address && address < 0x3f00 {
            address - 0x1000
        } else if 0x3f00 <= address {
            0x3f00 + (address & 0x1f)
        } else {
            address
        }
    }

    /// Which nametable RAM `address` reaches under `mirroring`: vertical mirroring pairs
    /// $2000/$2800 and $2400/$2C00, horizontal mirroring pairs $2000/$2400 and
    /// $2800/$2C00, one-screen boards use one page, and four-screen boards (and
    /// addresses outside $2000-$2FFF) use the full VRAM.
    pub open spec fn nametable_of(mirroring: Mirroring, address: usize) -> VramType {
        if address < 0x2000 || address >= 0x3000 {
            VramType::Vram
        } else {
            match mirroring {
                Mirroring::Vertical => if (0x2000 <= address < 0x2400) || (0x2800 <= address < 0x2c00) {
                    VramType::VramA
                } else {
                    VramType::VramB
                },
                Mirroring::Horizontal => if address < 0x2800 { VramType::VramA } else { VramType::VramB },
                Mirroring::ScreenA => VramType::VramA,
                Mirroring::ScreenB => VramType::VramB,
                _ => VramType::Vram,
            }
        }
    }

    pub fn nametable_mirroring(mirroring: Mirroring, address: usize) -> (r: VramType)
        requires
            mirroring == Mirroring::SingleScreen ==> address < 0x2000 || address >= 0x3000,
        ensures
            r == Self::nametable_of(mirroring, address),
    {
        if address < 0x2000 || address >= 0x3000 {
            return VramType::Vram;
        }
        match mirroring {
            Mirroring::Vertical => {
                if (0x2000 <= address && address < 0x2400) || (0x2800 <= address && address < 0x2c00) {
                    VramType::VramA
                } else {
                    VramType::VramB
                }
            },
            Mirroring::Horizontal => {
                if 0x2000 <= address && address < 0x2800 {
                    VramType::VramA
                } else {
                    VramType::VramB
                }
            },
            Mirroring::ScreenA => VramType::VramA,
            Mirroring::ScreenB => VramType::VramB,
            _ => VramType::Vram,
        }
    }

    fn palette_mirrorring(address: usize) -> (r: Option<usize>)
        ensures
            r == palette_mirror_of(address),
    {
        if address == 0x3f00 { Some(0x3f10) }
        else if address == 0x3f04 { Some(0x3f14) }
        else if address == 0x3f08 { Some(0x3f18) }
        else if address == 0x3f0c { Some(0x3f1c) }
        else if address == 0x3f10 { Some(0x3f00) }
        else if address == 0x3f14 { Some(0x3f04) }
        else if address == 0x3f18 { Some(0x3f08) }
        else if address == 0x3f1c { Some(0x3f0c) }
        else { None }
    }

    /// Sets bit `bit` of the byte at `address`.
    pub fn set_bit(&mut self, address: u16, bit: u8)
        requires
            old(self).wf(),
            bit < 8,
        ensures
            final(self).wf(),
            address < 0x8000 ==> final(self).memory@ == old(self).memory@.update(address as int,
                old(self).memory@[address as int] | (1u8 << bit))
                && *final(self) == (NesMemory { memory: final(self).memory, ..*old(self) }),
            address >= 0x8000 ==> final(self).memory == old(self).memory
                && *final(self) == (NesMemory { mapper: final(self).mapper, ..*old(self) }),
    {
        let current = self.get_force(address);
        let new_value = current | (1u8 << bit);
        self.set_force(address, new_value);
    }

    pub fn get_force(&mut self, address: u16) -> (r: u8)
        requires
            old(self).wf(),
        ensures
            r == old(self).memory@[address as int],
            *final(self) == *old(self),
    {
        self.memory[address as usize]
    }

    /// Clears bit `bit` of the byte at `address`.
    pub fn clear_bit(&mut self, address: u16, bit: u8)
        requires
            old(self).wf(),
            bit < 8,
        ensures
            final(self).wf(),
            address < 0x8000 ==> final(self).memory@ == old(self).memory@.update(address as int,
                old(self).memory@[address as int] & !(1u8 << bit))
                && *final(self) == (NesMemory { memory: final(self).memory, ..*old(self) }),
            address >= 0x8000 ==> final(self).memory == old(self).memory
                && *final(self) == (NesMemory { mapper: final(self).mapper, ..*old(self) }),
    {
        let current = self.get_force(address);
        self.set_force(address, current & !(1u8 << bit));
    }

    fn is_register(address: u16) -> (r: bool)
        ensures
            r == is_register_address(address),
    {
        (0x4014 <= address && address <= 0x4016) || (0x2000 <= address && address <= 0x2008)
    }

    /// A read of PPUDATA ($2007): palette addresses are returned at once (and the buffer
    /// is filled from the nametable byte beneath them); other addresses return the buffer,
    /// which is then refilled. `v` advances by the PPUCTRL increment.
    fn read_ppudata(&mut self) -> (r: u8)
        requires
            old(self).wf(),
        ensures
            final(self).wf(),
            final(self).ir == data_increment(old(self).ir, old(self).ppu_ctrl.vram_increment),
            *final(self) == (NesMemory {
                ir: final(self).ir,
                internal_buffer: final(self).internal_buffer,
                mapper: final(self).mapper,
                ..*old(self)
            }),
            old(self).ppu is Some && Ppu2::plain_board(old(self).mapper) ==> {
                let p = old(self).ppu.unwrap();
                let va = (old(self).ir.v & 0x3fff) as usize;
                &&& final(self).mapper == old(self).mapper
                &&& (va & 0x3f00) == 0x3f00 ==> r == p.vram_byte(old(self).mapper, (0x3f00 + (va & 0x1f)) as usize)
                    && final(self).internal_buffer == p.vram_byte(old(self).mapper, (0x2700 + (va & 0xff)) as usize)
                &&& (va & 0x3f00) != 0x3f00 ==> r == old(self).internal_buffer
                    && final(self).internal_buffer == p.vram_byte(old(self).mapper, va)
            },
    {
        let a = self.ir.v as usize & 0x3fff;
        let is_palette = (a & 0x3f00) == 0x3f00;
        proof {
            crate::bit_facts::lemma_usize_masks();
            assert(a & 0x1f <= 0x1f && a & 0xff <= 0xff);
        }
        let result = match &self.ppu {
            Some(ppu) => {
                if is_palette {
                    // The palette byte is returned directly; the buffer takes the nametable
                    // byte that the palette addresses hide.
                    let a2 = 0x3f00 + (a & 0x1f);
                    let result = ppu.get_vram(a2, &mut self.mapper);
                    let ts = 0x2700 + (a & 0xff);
                    self.internal_buffer = ppu.get_vram(ts, &mut self.mapper);
                    result
                } else {
                    let result = self.internal_buffer;
                    self.internal_buffer = ppu.get_vram(a, &mut self.mapper);
                    result
                }
            },
            None => self.internal_buffer,
        };
        let inc = self.ppu_ctrl.vram_increment;
        self.ir.increment_v(inc);
        result
    }

    /// The read of a non-mapped address below $8000.
    fn get2(&mut self, requested_address: u16) -> (r: u8)
        requires
            old(self).wf(),
            requested_address < 0x8000,
        ensures
            final(self).wf(),
            read_effect(*old(self), *final(self), requested_address, r),
    {
        let address = Self::cpu_mirrorring(requested_address);
        let mut result = self.memory[address as usize];
        if !self.init && Self::is_register(address) {
            if address == 0x2002 {
                // w:                  <- 0
                self.ir.w = false;
                self.clear_bit(0x2002, SPRITE_OVERFLOW);
                // $2002: bits 0 through 4 are open bus
                let open_bus = match &self.ppu {
                    Some(ppu) => ppu.get_open_bus(),
                    None => 0,
                };
                result = (result & 0b1110_0000) | (open_bus & 0x1f);
            } else if address == 0x2004 {
                // Reads do not move the OAM address, only writes do.
                result = match &self.ppu {
                    Some(ppu) => {
                        let byte = ppu.oam[ppu.oam_address as usize];
                        if ppu.oam_address % 4 == 2 { byte & 0xe3 } else { byte }
                    },
                    None => 0,
                };
            } else if address == 0x2007 {
                result = self.read_ppudata();
            } else if address == 0x4016 {
                result = self.joypad.read();
            } else {
                result = match &self.ppu {
                    Some(ppu) => ppu.get_open_bus(),
                    None => 0,
                };
            }
        }
        result
    }
}

impl Memory for NesMemory {
    open spec fn inv(&self) -> bool {
        self.wf()
    }

    /// Cartridge space from $8000, else RAM and registers.
    open spec fn reads(&self, after: Self, address: u16, value: u8) -> bool {
        &&& address >= 0x8000 ==> value == self.mapper.prg_byte(address) && after == *self
        &&& address < 0x8000 ==> read_effect(*self, after, address, value)
        &&& after.ppu == self.ppu
        &&& after.init == self.init
    }

    /// Cartridge registers from $8000, else RAM and registers.
    open spec fn writes(&self, after: Self, address: u16, value: u8) -> bool {
        &&& address >= 0x8000 ==> after.memory == self.memory && after == (NesMemory {
            mapper: after.mapper,
            ..*self
        }) && after.mapper.wram == self.mapper.wram
        &&& address < 0x8000 ==> write_effect(*self, after, address, value)
    }

    /// Cartridge space from $8000, else RAM and registers.
    fn get(&mut self, address: u16) -> (r: u8)
        ensures
            address >= 0x8000 ==> r == old(self).mapper.prg_byte(address)
                && *final(self) == *old(self),
            address < 0x8000 ==> read_effect(*old(self), *final(self), address, r),
            final(self).ppu == old(self).ppu,
            final(self).init == old(self).init,
    {
        if address >= 0x8000 {
            self.mapper.read_prg(address)
        } else {
            self.get2(address)
        }
    }

    fn set(&mut self, address: u16, value: u8)
        ensures
            address >= 0x8000 ==> final(self).memory == old(self).memory
                && *final(self) == (NesMemory { mapper: final(self).mapper, ..*old(self) })
                && final(self).mapper.wram == old(self).mapper.wram,
            address < 0x8000 ==> write_effect(*old(self), *final(self), address, value),
    {
        if address >= 0x8000 {
            self.mapper.write_prg(address, value);
        } else {
            self.set2(address, value);
        }
    }

    fn set_force(&mut self, address: u16, value: u8)
        ensures
            address < 0x8000 ==> final(self).memory@ == old(self).memory@.update(address as int, value)
                && *final(self) == (NesMemory { memory: final(self).memory, ..*old(self) }),
            address >= 0x8000 ==> final(self).memory == old(self).memory
                && *final(self) == (NesMemory { mapper: final(self).mapper, ..*old(self) }),
    {
        if address >= 0x8000 {
            self.mapper.write_prg(address, value);
        } else {
            self.memory.set(address as usize, value);
        }
    }

    fn get_direct(&mut self, address: u16) -> (r: u8)
        ensures
            *final(self) == *old(self),
            address >= 0x8000 ==> r == old(self).mapper.prg_byte(address),
            address < 0x8000 ==> r == old(self).memory@[address as int],
    {
        if address >= 0x8000 {
            self.mapper.read_prg(address)
        } else {
            self.memory[address as usize]
        }
    }

    fn main_memory(&mut self) -> (r: Vec<u8>)
        ensures
            r@ == old(self).memory@,
            *final(self) == *old(self),
    {
        self.memory.clone()
    }
}

/// What a CPU read of `address` (below $8000) gives and does: plain memory, or the
/// register it reaches: PPUSTATUS (clears the write latch and the sprite overflow flag,
/// low bits from the open bus), OAMDATA, PPUDATA (buffered), the controller port, or the
/// open bus for the write-only registers.
pub open spec fn read_effect(m: NesMemory, n: NesMemory, address: u16, r: u8) -> bool {
    let a = cpu_mirror_of(address);
    let live = !m.init && is_register_address(a);
    &&& !live ==> r == m.memory@[a as int] && n == m
    &&& live && a == 0x2002 ==> {
        &&& r == (m.memory@[0x2002] & 0xe0) | (open_bus_of(m.ppu) & 0x1f)
        &&& n.memory@ == m.memory@.update(0x2002,
            m.memory@[0x2002] & !(1u8 << SPRITE_OVERFLOW))
        &&& n == (NesMemory {
            memory: n.memory,
            ir: IR { w: false, ..m.ir },
            ..m
        })
    }
    &&& live && a == 0x2004 ==> n == m && (m.ppu is Some
        ==> r == oam_data_read(m.ppu.unwrap().oam@[m.ppu.unwrap().oam_address as int],
            m.ppu.unwrap().oam_address))
    &&& live && a == 0x2007 ==> n.ir == data_increment(m.ir,
        m.ppu_ctrl.vram_increment)
        && n == (NesMemory {
            ir: n.ir,
            internal_buffer: n.internal_buffer,
            mapper: n.mapper,
            ..m
        })
    &&& live && a == 0x4016 ==> {
        &&& r == m.joypad.next_read()
        &&& n.joypad.index() == m.joypad.next_index()
        &&& n.joypad.status() == m.joypad.status()
        &&& n == (NesMemory { joypad: n.joypad, ..m })
    }
    &&& live && a != 0x2002 && a != 0x2004 && a != 0x2007 && a != 0x4016 ==>
        r == open_bus_of(m.ppu) && n == m
            }

/// A read of OAMDATA gives the byte at the OAM address, except that bits 2 to 4 of a
/// sprite's attribute byte (the third of its four) do not exist and read as 0.
pub open spec fn oam_data_read(byte: u8, oam_address: u8) -> u8 {
    if oam_address % 4 == 2 { byte & 0xe3 } else { byte }
}

/// The PPU after a register write of `value`: the value stays on its open bus.
pub open spec fn with_open_bus(ppu: Option<Ppu2>, value: u8) -> Option<Ppu2> {
    match ppu {
        Some(p) => Some(Ppu2 { open_bus: value, ..p }),
        None => None,
    }
}

/// What a CPU write of `value` to `address` (below $8000) does: the register it reaches
/// takes effect (PPUCTRL, PPUMASK, OAMADDR, OAMDATA, PPUSCROLL, PPUADDR, PPUDATA, OAM DMA,
/// the controller strobe), the value stays on the PPU's open bus, and the byte is stored at
/// the mirrored address. With `init` set, only the store happens.
pub open spec fn write_effect(m: NesMemory, n: NesMemory, address: u16, value: u8) -> bool {
    let a = cpu_mirror_of(address);
    let live = !m.init && is_register_address(a);
    &&& n.memory@ == (if live && a == 0x4014 { n.memory@ } else { m.memory@.update(a as int, value) })
    &&& n.memory@[a as int] == value
    &&& !live ==> n == (NesMemory { memory: n.memory, ..m })
    &&& live && a == 0x2000 ==> n == (NesMemory {
            memory: n.memory,
            ppu_ctrl: ppu_ctrl_of(value),
            ir: ctrl_write(m.ir, value),
            ppu: with_open_bus(m.ppu, value),
            ..m
        })
    &&& live && a == 0x2001 ==> n == (NesMemory {
            memory: n.memory,
            ppu_mask: PpuMask::new_spec(value),
            ppu: with_open_bus(m.ppu, value),
            ..m
        })
    &&& live && a == 0x2003 ==> n == (NesMemory {
            memory: n.memory,
            ppu: match m.ppu {
                Some(p) => Some(Ppu2 { oam_address: value, open_bus: value, ..p }),
                None => None,
            },
            ..m
        })
    &&& live && a == 0x2004 ==> n == (NesMemory { memory: n.memory, ppu: n.ppu, ..m })
        && match m.ppu {
            Some(p) => n.ppu is Some && n.ppu.unwrap() == (Ppu2 {
                    oam: n.ppu.unwrap().oam,
                    oam_address: ((p.oam_address + 1) % 256) as u8,
                    open_bus: value,
                    ..p
                })
                && n.ppu.unwrap().oam@ == p.oam@.update(p.oam_address as int, value),
            None => n.ppu is None,
        }
    &&& live && a == 0x2005 ==> n == (NesMemory {
            memory: n.memory,
            ir: scroll_write(m.ir, value),
            ppu: with_open_bus(m.ppu, value),
            ..m
        })
    &&& live && a == 0x2006 ==> n == (NesMemory {
            memory: n.memory,
            ir: addr_write(m.ir, value),
            ppu: with_open_bus(m.ppu, value),
            ..m
        })
    &&& live && a == 0x2007 ==> n == (NesMemory {
            memory: n.memory,
            ir: data_increment(m.ir, m.ppu_ctrl.vram_increment),
            ppu: n.ppu,
            mapper: n.mapper,
            ..m
        })
        && data_written(m, n, value)
    &&& live && a == 0x4014 ==> n.wf() && n.init == m.init && (m.ppu is Some <==> n.ppu is Some)
        && (value < 0x20 ==> dma_done(m, n, value))
        && exists|n0: NesMemory| #[trigger] oam_dma_effect(m, n0, value)
            && n == (NesMemory { memory: n.memory, ..n0 })
            && n.memory@ == n0.memory@.update(0x4014, value)
    &&& live && a == 0x4016 ==> n == (NesMemory {
            memory: n.memory,
            joypad: n.joypad,
            ppu: with_open_bus(m.ppu, value),
            ..m
        })
        && n.joypad.index() == 0 && n.joypad.status() == m.joypad.status()
    &&& live && (a == 0x2002 || a == 0x2008 || a == 0x4015) ==> n == (NesMemory {
            memory: n.memory,
            ppu: with_open_bus(m.ppu, value),
            ..m
        })
}

/// A write of `value` to PPUDATA: palette addresses update the palette entry and its
/// mirror (6 bits each); other addresses reach nametable RAM or CHR through the board.
/// The value stays on the open bus.
pub open spec fn data_written(m: NesMemory, n: NesMemory, value: u8) -> bool {
    let a = (m.ir.v & 0x3fff) as usize;
    match m.ppu {
        Some(p) => n.ppu is Some && if a >= 0x3f00 {
            let i = (a & 0x1f) as int;
            let once = p.palette_table@.update(i, value & 0x3f);
            &&& n.mapper == m.mapper
            &&& n.ppu.unwrap() == (Ppu2 { palette_table: n.ppu.unwrap().palette_table, open_bus: value, ..p })
            &&& n.ppu.unwrap().palette_table@ == match palette_mirror_of(a) {
                Some(mirror) => once.update((mirror & 0x1f) as int, value & 0x3f),
                None => once,
            }
        } else {
            n.ppu == with_open_bus(m.ppu, value) && crate::ppu2::vram_written(m.mapper, n.mapper, a, value)
        },
        None => n.ppu is None && n.mapper == m.mapper,
    }
}

/// One byte of an OAM DMA: the CPU read of `address` takes the bus `a` to `mid` and gives
/// `v`, which then lands in OAM slot `slot`, leaving `b`.
pub open spec fn dma_byte(a: NesMemory, mid: NesMemory, b: NesMemory, address: u16, slot: int, v: u8) -> bool {
    &&& a.reads(mid, address, v)
    &&& b == (NesMemory { ppu: b.ppu, ..mid })
    &&& match mid.ppu {
        Some(p) => b.ppu is Some && b.ppu.unwrap() == (Ppu2 { oam: b.ppu.unwrap().oam, ..p })
            && b.ppu.unwrap().oam@ == p.oam@.update(slot, v),
        None => b.ppu is None,
    }
}

/// The OAM address that a DMA starts at.
pub open spec fn dma_offset(m: NesMemory) -> u8 {
    match m.ppu {
        Some(p) => p.oam_address,
        None => 0,
    }
}

/// The 256 transfers of an OAM DMA from page `page`, taking the bus `m` to `n`: in order,
/// the CPU reads `page * 256 + i` (with the effects that reading a register or the
/// cartridge has) and the byte lands in OAM at `dma_slot(offset, i)` before the next read.
pub open spec fn dma_reads(m: NesMemory, n: NesMemory, page: u8) -> bool {
    exists|ms: Seq<NesMemory>, mids: Seq<NesMemory>, vs: Seq<u8>| {
        &&& ms.len() == 257
        &&& mids.len() == 256
        &&& vs.len() == 256
        &&& ms[0] == m
        &&& ms[256] == n
        &&& forall|i: int| 0 <= i < 256 ==> #[trigger] dma_byte(ms[i], mids[i], ms[i + 1],
            (page as int * 256 + i) as u16, dma_slot(dma_offset(m), i), vs[i])
    }
}

/// An OAM DMA from page `page`: the transfers of `dma_reads`, after which the page stays
/// on the PPU's open bus.
pub open spec fn oam_dma_effect(m: NesMemory, n: NesMemory, page: u8) -> bool {
    exists|n0: NesMemory| #[trigger] dma_reads(m, n0, page)
        && n == (NesMemory { ppu: with_open_bus(n0.ppu, page), ..n0 })
}

/// An OAM DMA from RAM page `page`: the 256 bytes of the page land in OAM from the OAM
/// address on, wrapping; nothing else changes but the open bus.
pub open spec fn dma_done(m: NesMemory, n: NesMemory, page: u8) -> bool {
    match m.ppu {
        Some(p) => {
            &&& n == (NesMemory { memory: n.memory, ppu: n.ppu, ..m })
            &&& n.ppu is Some
            &&& n.ppu.unwrap() == (Ppu2 { oam: n.ppu.unwrap().oam, open_bus: page, ..p })
            &&& forall|i: int| 0 <= i < 256 ==> n.ppu.unwrap().oam@[#[trigger] dma_slot(p.oam_address, i)]
                == m.memory@[(page as int * 256 + i) % 0x800]
        },
        None => n == (NesMemory { memory: n.memory, ..m }),
    }
}

impl NesMemory {
    fn write_ppuscroll(&mut self, value: u8)
        ensures
            *final(self) == (NesMemory { ir: scroll_write(old(self).ir, value), ..*old(self) }),
    {
        if !self.ir.w {
            // t: ....... ...ABCDE <- d: ABCDE...
            self.ir.t = set_bits_with_mask(self.ir.t, (value as u16) >> 3u16, 0b11111, 0);
            // x:              FGH <- d: .....FGH
            self.ir.x = (self.ir.x & !0b111u8) | (value & 0b111);
        } else {
            // t: FGH..AB CDE..... <- d: ABCDEFGH
            let abcde = ((value as u16) & 0b1111_1000) >> 3u16;
            let fgh = (value as u16) & 0b111;
            self.ir.t = (self.ir.t & 0b000_11_00000_11111) | (fgh << 12u16) | (abcde << 5u16);
        }
        self.ir.w = !self.ir.w;
    }

    fn write_ppuaddr(&mut self, value: u8)
        ensures
            *final(self) == (NesMemory { ir: addr_write(old(self).ir, value), ..*old(self) }),
    {
        if !self.ir.w {
            // t: .CDEFGH ........ <- d: ..CDEFGH, bit Z cleared
            self.ir.t = set_bits_with_mask(self.ir.t, value as u16, 0b11_1111, 8) & 0b1011_1111_1111_1111;
        } else {
            // t: ....... ABCDEFGH <- d: ABCDEFGH, then v <- t
            self.ir.t = (self.ir.t & 0xff00) | (value as u16);
            self.ir.set_v_to_t();
        }
        self.ir.w = !self.ir.w;
    }

    fn write_ppudata(&mut self, value: u8)
        requires
            old(self).wf(),
        ensures
            final(self).wf(),
            *final(self) == (NesMemory {
                ir: data_increment(old(self).ir, old(self).ppu_ctrl.vram_increment),
                ppu: final(self).ppu,
                mapper: final(self).mapper,
                ..*old(self)
            }),
            data_written(*old(self), *final(self), value),
    {
        proof {
            reveal(Ppu2::wf);
        }
        let v = self.ir.v;
        let a = v as usize & 0x3fff;
        proof {
            crate::bit_facts::lemma_usize_masks();
            assert(a <= 0x3fff);
        }
        match &mut self.ppu {
            Some(ppu) => {
                ppu.set_vram(a, value, &mut self.mapper);
                if let Some(mirror_address) = Self::palette_mirrorring(a) {
                    proof {
                        lemma_mirror_bits(0, mirror_address);
                    }
                    ppu.set_vram(mirror_address, value, &mut self.mapper);
                }
            },
            None => {},
        }
        proof {
            if a >= 0x3f00 {
                lemma_mirror_bits(0, a);
            }
        }
        match &mut self.ppu {
            Some(ppu) => ppu.set_open_bus(value),
            None => {},
        }
        let inc = self.ppu_ctrl.vram_increment;
        self.ir.increment_v(inc);
    }

    fn oam_dma(&mut self, page: u8)
        requires
            old(self).wf(),
            !old(self).init,
        ensures
            final(self).wf(),
            final(self).init == old(self).init,
            old(self).ppu is Some <==> final(self).ppu is Some,
            page < 0x20 ==> dma_done(*old(self), *final(self), page),
            oam_dma_effect(*old(self), *final(self), page),
    {
        proof {
            reveal(Ppu2::wf);
        }
        let ghost mut ms: Seq<NesMemory> = seq![*self];
        let ghost mut mids: Seq<NesMemory> = seq![];
        let ghost mut vs: Seq<u8> = seq![];
        let address = page as u16 * 0x100;
        let offset = match &self.ppu {
            Some(ppu) => ppu.oam_address,
            None => 0,
        };
        let ghost m = *old(self);
        let mut i: u16 = 0;
        while i <= 255
            invariant
                i <= 256,
                address == page as int * 256,
                self.wf(),
                self.init == m.init,
                m.ppu is Some <==> self.ppu is Some,
                m.ppu is Some ==> offset == m.ppu.unwrap().oam_address,
                offset == dma_offset(m),
                self.ppu is Some ==> self.ppu.unwrap().oam_address == offset,
                ms.len() == i + 1,
                mids.len() == i,
                vs.len() == i,
                ms[0] == m,
                ms[i as int] == *self,
                forall|k: int| 0 <= k < i ==> #[trigger] dma_byte(ms[k], mids[k], ms[k + 1],
                    (page as int * 256 + k) as u16, dma_slot(dma_offset(m), k), vs[k]),
                page < 0x20 ==> {
                    &&& *self == (NesMemory { ppu: self.ppu, ..m })
                    &&& m.ppu is Some ==> {
                        let p = m.ppu.unwrap();
                        &&& self.ppu.unwrap() == (Ppu2 { oam: self.ppu.unwrap().oam, ..p })
                        &&& forall|k: int| 0 <= k < i ==> self.ppu.unwrap().oam@[#[trigger] dma_slot(offset, k)]
                            == m.memory@[(page as int * 256 + k) % 0x800]
                    }
                },
            decreases 256 - i,
        {
            proof {
                reveal(Ppu2::wf);
            }
            let i2 = ((i + offset as u16) % 256) as u8;
            let v = self.get(address + i);
            proof {
                if page < 0x20 {
                    let x = (address + i) as u16;
                    crate::bit_facts::lemma_u16_masks();
                    assert(x & 0x7ff == x % 0x800);
                }
            }
            let ghost before = *self;
            match &mut self.ppu {
                Some(ppu) => ppu.write_oam(i2, v),
                None => {},
            }
            proof {
                let prev = ms[i as int];
                assert(i2 as int == dma_slot(dma_offset(m), i as int));
                assert((address + i) as u16 == (page as int * 256 + i) as u16);
                assert(dma_byte(prev, before, *self, (page as int * 256 + i) as u16,
                    dma_slot(dma_offset(m), i as int), v));
                let ms2 = ms.push(*self);
                let mids2 = mids.push(before);
                let vs2 = vs.push(v);
                assert forall|k: int| 0 <= k < i + 1 implies #[trigger] dma_byte(ms2[k], mids2[k], ms2[k + 1],
                    (page as int * 256 + k) as u16, dma_slot(dma_offset(m), k), vs2[k]) by {
                    if k < i {
                        assert(ms2[k] == ms[k] && ms2[k + 1] == ms[k + 1] && mids2[k] == mids[k] && vs2[k] == vs[k]);
                    }
                }
                ms = ms2;
                mids = mids2;
                vs = vs2;
            }
            proof {
                if page < 0x20 && m.ppu is Some {
                    assert forall|k: int| 0 <= k < i + 1 implies self.ppu.unwrap().oam@[#[trigger] dma_slot(offset, k)]
                        == m.memory@[(page as int * 256 + k) % 0x800] by {
                        if k < i {
                            assert(dma_slot(offset, k) != i2 as int);
                            assert(before.ppu.unwrap().oam@[dma_slot(offset, k)]
                                == m.memory@[(page as int * 256 + k) % 0x800]);
                        }
                    }
                }
            }
            i += 1;
        }
        let ghost n0 = *self;
        proof {
            assert(dma_reads(m, n0, page));
        }
        match &mut self.ppu {
            Some(ppu) => ppu.set_open_bus(page),
            None => {},
        }
        assert(*self == (NesMemory { ppu: with_open_bus(n0.ppu, page), ..n0 }));
    }

    /// The write of a non-mapped address below $8000.
    fn set2(&mut self, requested_address: u16, value: u8)
        requires
            old(self).wf(),
            requested_address < 0x8000,
        ensures
            final(self).wf(),
            write_effect(*old(self), *final(self), requested_address, value),
    {
        proof {
            reveal(Ppu2::wf);
        }
        let address = Self::cpu_mirrorring(requested_address);
        if !self.init && Self::is_register(address) {
            if address == 0x2000 {
                // PPUCTRL; t: ...GH.. ........ <- d: ......GH
                self.ppu_ctrl = PpuCtrl::new(value);
                self.ir.t = set_bits_with_mask(self.ir.t, value as u16, 0b11, 10);
            } else if address == 0x2001 {
                // PPUMASK
                self.ppu_mask = PpuMask::new(value);
            } else if address == 0x2003 {
                // OAMADDR
                match &mut self.ppu {
                    Some(ppu) => { ppu.oam_address = value; },
                    None => {},
                }
            } else if address == 0x2004 {
                // OAMDATA
                match &mut self.ppu {
                    Some(ppu) => {
                        let a = ppu.oam_address;
                        ppu.write_oam(a, value);
                        ppu.oam_address = a.wrapping_add(1);
                    },
                    None => {},
                }
            } else if address == 0x2005 {
                // PPUSCROLL
                self.write_ppuscroll(value);
            } else if address == 0x2006 {
                // PPUADDR
                self.write_ppuaddr(value);
            } else if address == 0x2007 {
                // PPUDATA
                self.write_ppudata(value);
            } else if address == 0x4014 {
                // OAM DMA: 256 bytes from page `value` into OAM
                self.oam_dma(value);
            } else if address == 0x4016 {
                // Controller strobe
                self.joypad.write(value);
            }
            match &mut self.ppu {
                Some(ppu) => ppu.set_open_bus(value),
                None => {},
            }
        }
        self.set_force(address, value);
    }
}

/// The 2 KB of work RAM appear four times in $0000-$1FFF: a read of any
/// mirror of a RAM address gives back the byte last written through any
/// mirror of it.
pub proof fn lemma_ram_read_after_write(m: NesMemory, n: NesMemory, o: NesMemory, a: u16, b: u16, value: u8, r: u8)
    requires
        a < 0x2000,
        b < 0x2000,
        a & 0x7ff == b & 0x7ff,
        m.writes(n, a, value),
        n.reads(o, b, r),
    ensures
        r == value,
        o == n,
{
    crate::bit_facts::lemma_u16_masks();
    assert(cpu_mirror_of(a) == cpu_mirror_of(b));
    assert(cpu_mirror_of(a) <= 0x7ff);
    assert(!is_register_address(cpu_mirror_of(a)));
    assert(write_effect(m, n, a, value));
    assert(read_effect(n, o, b, r));
}

} // verus!
