use vstd::prelude::*;
use crate::text::{
    bool_text, decimal, hex_byte, hex_word, push_bool, push_decimal, push_hex_byte, push_hex_word,
    push_text,
};

verus! {

/// PPUCTRL: $2000
/// 7  bit  0
/// ---- ----
/// VPHB SINN
/// |||| ||||
/// |||| ||++- Base nametable address
/// |||| ||    (0 = $2000; 1 = $2400; 2 = $2800; 3 = $2C00)
/// |||| |+--- VRAM address increment per CPU read/write of PPUDATA
/// |||| |     (0: add 1, going across; 1: add 32, going down)
/// |||| +---- Sprite pattern table address for 8x8 sprites
/// ||||       (0: $0000; 1: $1000; ignored in 8x16 mode)
/// |||+------ Background pattern table address (0: $0000; 1: $1000)
/// ||+------- Sprite size (0: 8x8 pixels; 1: 8x16 pixels)
/// |+-------- PPU master/slave select
/// +--------- Vblank NMI enable (0: off, 1: on)
#[derive(Copy, Clone, Debug, Default)]
pub struct PpuCtrl {
    pub vbl: bool,
    pub ppu_master: bool,
    /// 8 or 16
    pub sprite_height: u8,
    /// 0 or 0x1000
    pub background_table: u16,
    /// 0 or 0x1000
    pub sprite_table: u16,
    /// 1 or 0x20
    pub vram_increment: u16,
    /// $2000, $2400, $2800, $2c00
    pub base_nametable: u16,
}

/// The decoding of a byte written to $2000.
pub open spec fn ppu_ctrl_of(value: u8) -> PpuCtrl {
    PpuCtrl {
        vbl: value & 0x80 != 0,
        ppu_master: value & 0x40 == 0,
        sprite_height: if value & 0x20 == 0 { 8 } else { 16 },
        background_table: if value & 0x10 == 0 { 0 } else { 0x1000 },
        sprite_table: if value & 0x08 == 0 { 0 } else { 0x1000 },
        vram_increment: if value & 0x04 == 0 { 1 } else { 0x20 },
        base_nametable: (0x2000 + 0x400 * (value & 0x03)) as u16,
    }
}

impl PpuCtrl {
    pub fn new(value: u8) -> (r: Self)
        ensures
            r == ppu_ctrl_of(value),
    {
        let vbl = 0 != (value & 0x80);
        let ppu_master = 0 == (value & 0x40);
        let sprite_height: u8 = if 0 == (value & 0x20) { 8 } else { 16 };
        let background_table: u16 = if 0 == (value & 0x10) { 0 } else { 0x1000 };
        let sprite_table: u16 = if 0 == (value & 0x08) { 0 } else { 0x1000 };
        let vram_increment: u16 = if 0 == (value & 0x04) { 1 } else { 0x20 };
        let low = value & 0b0000_0011;
        let base_nametable: u16 = if low == 0 {
            0x2000
        } else if low == 1 {
            0x2400
        } else if low == 2 {
            0x2800
        } else {
            0x2C00
        };
        proof {
            crate::bit_facts::lemma_u8_masks();
            assert(value & 0x03 <= 0x03);
        }
        Self {
            vbl,
            ppu_master,
            sprite_height,
            background_table,
            sprite_table,
            vram_increment,
            base_nametable,
        }
    }
}

/// How PPUCTRL prints: the master/slave bit as two hexadecimal digits, the
/// NMI flag, the sprite height and the increment in decimal, and the three
/// addresses in hexadecimal.
pub open spec fn ppu_ctrl_text(c: PpuCtrl) -> Seq<char> {
    "PPUCTRL: "@ + hex_byte(if c.ppu_master { 1u8 } else { 0u8 }) + " vbl:"@ + bool_text(c.vbl)
        + " sprite_height:"@ + decimal(c.sprite_height as nat) + " background_table:"@ + hex_word(
        c.background_table,
    ) + " sprite_table:"@ + hex_word(c.sprite_table) + " vram_increment:"@ + decimal(
        c.vram_increment as nat,
    ) + " nametable:"@ + hex_word(c.base_nametable)
}

impl PpuCtrl {
    /// The register as text (see `ppu_ctrl_text`).
    pub fn to_string(&self) -> (r: String)
        ensures
            r@ == ppu_ctrl_text(*self),
    {
        let mut s = String::new();
        push_text(&mut s, "PPUCTRL: ");
        push_hex_byte(&mut s, if self.ppu_master { 1u8 } else { 0u8 });
        push_text(&mut s, " vbl:");
        push_bool(&mut s, self.vbl);
        push_text(&mut s, " sprite_height:");
        push_decimal(&mut s, self.sprite_height as u128);
        push_text(&mut s, " background_table:");
        push_hex_word(&mut s, self.background_table);
        push_text(&mut s, " sprite_table:");
        push_hex_word(&mut s, self.sprite_table);
        push_text(&mut s, " vram_increment:");
        push_decimal(&mut s, self.vram_increment as u128);
        push_text(&mut s, " nametable:");
        push_hex_word(&mut s, self.base_nametable);
        s
    }
}

/// Law: a byte written to PPUCTRL, bit by bit: bits 0-1 pick the base nametable at $2000
/// plus $400 times their value, bit 2 the VRAM increment (32 when set, 1 when clear), bit 3
/// the sprite pattern table and bit 4 the background one ($1000 when set, $0000 when clear),
/// bit 5 sprites 16 pixels high, bit 6 the slave select, bit 7 the NMI at vertical blank.
pub proof fn lemma_ppu_ctrl_bits(value: u8)
    ensures
        ({
            let c = ppu_ctrl_of(value);
            &&& c.base_nametable == 0x2000 + 0x400 * (value % 4)
            &&& c.vram_increment == (if (value / 4) % 2 == 1 { 32int } else { 1 })
            &&& c.sprite_table == (if (value / 8) % 2 == 1 { 0x1000int } else { 0 })
            &&& c.background_table == (if (value / 16) % 2 == 1 { 0x1000int } else { 0 })
            &&& c.sprite_height == (if (value / 32) % 2 == 1 { 16int } else { 8 })
            &&& c.ppu_master == ((value / 64) % 2 == 0)
            &&& c.vbl == (value >= 128)
        }),
{
    crate::bit_facts::lemma_u8_fields();
    assert(value & 3 == value % 4 && value & 4 == 4 * ((value / 4) % 2) && value & 8 == 8 * ((value / 8) % 2)
        && value & 0x10 == 16 * ((value / 16) % 2) && value & 0x20 == 32 * ((value / 32) % 2)
        && value & 0x40 == 64 * ((value / 64) % 2) && value & 0x80 == 128 * (value / 128));
}

} // verus!
