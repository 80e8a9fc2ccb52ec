use vstd::prelude::*;
use crate::delayed::{Delayed, Element};
use crate::internal_registers::{IR, hori_mask, vert_mask, vert_increment_of};
use crate::mappers::mapper_base::{MapperBase, VramType};
use crate::nes_memory::{NesMemory, ppu_mirror_of};
use crate::ppu_ctrl::PpuCtrl;
use crate::ppu_mask::PpuMask;

verus! {

/// Fetch the nametable byte at $2000 | (v & $0FFF).
pub const NT: u16 = 0x0002;
/// Fetch the attribute byte at $23C0 | (v & $0C00) | ((v >> 4) & $38) | ((v >> 2) & $07).
pub const AT: u16 = 0x0004;
pub const BG_LSBITS: u16 = 0x0008;
pub const BG_MSBITS: u16 = 0x0010;
pub const INC_HORIZ_V: u16 = 0x0020;
pub const INC_VERT_V: u16 = 0x0040;
pub const HORI_V_EQUALS_HORI_T: u16 = 0x0080;
pub const SET_VBLANK_FLAG: u16 = 0x0100;
/// Clear the VBL, sprite 0 hit and sprite overflow flags.
pub const CLEAR_FLAGS: u16 = 0x0200;
pub const VERT_V_EQUALS_VERT_T: u16 = 0x0400;
pub const SPRITE_LS_BITS: u16 = 0x0800;
pub const SPRITE_MS_BITS: u16 = 0x1000;
/// Dots 1-64: the PPU writes $FF to the 32 bytes of secondary OAM, one byte per event.
pub const SECONDARY_OAM_CLEAR: u16 = 0x2000;
/// Dots 65-256: the 64 sprites of primary OAM are checked one per dot against the next
/// scanline (`next >= y && next < y + height`).
pub const SPRITE_EVALUATION: u16 = 0x4000;
pub const END_SPRITE_EVALUATION: u16 = 0x8000;

/// Scanlines per frame.
pub const HEIGHT: usize = 262;
/// Dots per scanline.
pub const WIDTH: usize = 341;
/// Dots per frame.
pub const FRAME_DOTS: usize = 89342;

/// Bits of $2002.
pub const BIT_SPRITE_OVERFLOW: u8 = 5;
pub const BIT_SPRITE_0_HIT: u8 = 6;
pub const BIT_VBL: u8 = 7;

/// What one PPU dot reports to the emulator.
#[derive(Clone, Copy, Debug, PartialEq, Eq)]
pub struct PpuResult {
    /// The VBL flag was raised on this dot.
    pub vbl: bool,
    /// This dot is dot 0 of scanline 0.
    pub frame_start: bool,
    /// This dot is dot 0 of scanline 240, the first dot after the visible picture.
    pub frame_end: bool,
    pub irq_requested: bool,
}

/// One sprite row fetched for the next scanline.
#[derive(Clone, Copy, Debug)]
pub struct SpriteLatch {
    /// Primary OAM index (0..63) the sprite came from.
    pub source_index: u8,
    pub attr: u8,
    pub x: u16,
    pub low: u8,
    pub high: u8,
}

/// Scanlines whose dots fetch background tiles: the visible ones and the pre-render line.
pub open spec fn render_line(y: int) -> bool {
    y < 240 || y == 261
}

#[verifier::opaque]
pub open spec fn is_nt_dot(y: int, x: int) -> bool {
    render_line(y) && ((1 <= x <= 249 && x % 8 == 1) || x == 322 || x == 330)
}

#[verifier::opaque]
pub open spec fn is_at_dot(y: int, x: int) -> bool {
    render_line(y) && ((3 <= x <= 251 && x % 8 == 3) || x == 324 || x == 332)
}

#[verifier::opaque]
pub open spec fn is_bg_ls_dot(y: int, x: int) -> bool {
    render_line(y) && ((5 <= x <= 253 && x % 8 == 5) || x == 326 || x == 334)
}

#[verifier::opaque]
pub open spec fn is_bg_ms_dot(y: int, x: int) -> bool {
    render_line(y) && ((7 <= x <= 255 && x % 8 == 7) || x == 328 || x == 336)
}

#[verifier::opaque]
pub open spec fn is_inc_h_dot(y: int, x: int) -> bool {
    render_line(y) && ((8 <= x <= 256 && x % 8 == 0) || x == 329 || x == 337)
}

#[verifier::opaque]
pub open spec fn is_inc_v_dot(y: int, x: int) -> bool {
    render_line(y) && x == 256
}

#[verifier::opaque]
pub open spec fn is_hori_dot(y: int, x: int) -> bool {
    render_line(y) && x == 257
}

#[verifier::opaque]
pub open spec fn is_vbl_dot(y: int, x: int) -> bool {
    y == 241 && x == 0
}

#[verifier::opaque]
pub open spec fn is_clear_dot(y: int, x: int) -> bool {
    y == 261 && x == 1
}

#[verifier::opaque]
pub open spec fn is_vert_dot(y: int, x: int) -> bool {
    y == 261 && 280 <= x <= 304
}

#[verifier::opaque]
pub open spec fn is_sprite_ls_dot(y: int, x: int) -> bool {
    261 <= x <= 317 && x % 8 == 5
}

#[verifier::opaque]
pub open spec fn is_sprite_ms_dot(y: int, x: int) -> bool {
    263 <= x <= 319 && x % 8 == 7
}

#[verifier::opaque]
pub open spec fn is_oam_clear_dot(y: int, x: int) -> bool {
    render_line(y) && 1 <= x <= 64
}

#[verifier::opaque]
pub open spec fn is_eval_dot(y: int, x: int) -> bool {
    render_line(y) && 65 <= x <= 256
}

#[verifier::opaque]
pub open spec fn is_end_eval_dot(y: int, x: int) -> bool {
    x == 260
}

pub open spec fn flag(b: bool, f: u16) -> u16 {
    if b { f } else { 0 }
}

/// The word of event bits from the given conditions.
pub open spec fn compose_event(nt: bool, at: bool, ls: bool, ms: bool, inc_h: bool, inc_v: bool,
    hori: bool, vbl: bool, clear: bool, vert: bool, sls: bool, sms: bool, oam_clear: bool,
    eval: bool, end: bool) -> u16
{
    flag(nt, 0x0002) | flag(at, 0x0004) | flag(ls, 0x0008) | flag(ms, 0x0010)
        | flag(inc_h, 0x0020) | flag(inc_v, 0x0040) | flag(hori, 0x0080) | flag(vbl, 0x0100)
        | flag(clear, 0x0200) | flag(vert, 0x0400) | flag(sls, 0x0800) | flag(sms, 0x1000)
        | flag(oam_clear, 0x2000) | flag(eval, 0x4000) | flag(end, 0x8000)
}

/// The events of dot `x` of scanline `y`.
pub open spec fn event_at(y: int, x: int) -> u16 {
    compose_event(is_nt_dot(y, x), is_at_dot(y, x), is_bg_ls_dot(y, x), is_bg_ms_dot(y, x),
        is_inc_h_dot(y, x), is_inc_v_dot(y, x), is_hori_dot(y, x), is_vbl_dot(y, x),
        is_clear_dot(y, x), is_vert_dot(y, x), is_sprite_ls_dot(y, x), is_sprite_ms_dot(y, x),
        is_oam_clear_dot(y, x), is_eval_dot(y, x), is_end_eval_dot(y, x))
}

/// The events of the dot at `index` in the frame, scanline by scanline.
pub open spec fn event_of_index(index: int) -> u16 {
    event_at(index / WIDTH as int, index % WIDTH as int)
}

/// Each bit of a composed event word reports its own condition.
pub proof fn lemma_compose_event_bits(nt: bool, at: bool, ls: bool, ms: bool, inc_h: bool,
    inc_v: bool, hori: bool, vbl: bool, clear: bool, vert: bool, sls: bool, sms: bool,
    oam_clear: bool, eval: bool, end: bool)
    ensures
        ({
            let e = compose_event(nt, at, ls, ms, inc_h, inc_v, hori, vbl, clear, vert, sls, sms,
                oam_clear, eval, end);
            &&& (e & 0x0002 != 0) == nt
            &&& (e & 0x0004 != 0) == at
            &&& (e & 0x0008 != 0) == ls
            &&& (e & 0x0010 != 0) == ms
            &&& (e & 0x0020 != 0) == inc_h
            &&& (e & 0x0040 != 0) == inc_v
            &&& (e & 0x0080 != 0) == hori
            &&& (e & 0x0100 != 0) == vbl
            &&& (e & 0x0200 != 0) == clear
            &&& (e & 0x0400 != 0) == vert
            &&& (e & 0x0800 != 0) == sls
            &&& (e & 0x1000 != 0) == sms
            &&& (e & 0x2000 != 0) == oam_clear
            &&& (e & 0x4000 != 0) == eval
            &&& (e & 0x8000 != 0) == end
        }),
{
    let e = compose_event(nt, at, ls, ms, inc_h, inc_v, hori, vbl, clear, vert, sls, sms,
        oam_clear, eval, end);
    assert(e == flag(nt, 0x0002) | flag(at, 0x0004) | flag(ls, 0x0008) | flag(ms, 0x0010)
        | flag(inc_h, 0x0020) | flag(inc_v, 0x0040) | flag(hori, 0x0080) | flag(vbl, 0x0100)
        | flag(clear, 0x0200) | flag(vert, 0x0400) | flag(sls, 0x0800) | flag(sms, 0x1000)
        | flag(oam_clear, 0x2000) | flag(eval, 0x4000) | flag(end, 0x8000));
    assert({
        &&& (e & 0x0002 != 0) == nt
        &&& (e & 0x0004 != 0) == at
        &&& (e & 0x0008 != 0) == ls
        &&& (e & 0x0010 != 0) == ms
        &&& (e & 0x0020 != 0) == inc_h
        &&& (e & 0x0040 != 0) == inc_v
        &&& (e & 0x0080 != 0) == hori
        &&& (e & 0x0100 != 0) == vbl
        &&& (e & 0x0200 != 0) == clear
        &&& (e & 0x0400 != 0) == vert
        &&& (e & 0x0800 != 0) == sls
        &&& (e & 0x1000 != 0) == sms
        &&& (e & 0x2000 != 0) == oam_clear
        &&& (e & 0x4000 != 0) == eval
        &&& (e & 0x8000 != 0) == end
    }) by (bit_vector)
        requires
            e == (if nt { 0x0002u16 } else { 0u16 }) | (if at { 0x0004u16 } else { 0u16 })
                | (if ls { 0x0008u16 } else { 0u16 }) | (if ms { 0x0010u16 } else { 0u16 })
                | (if inc_h { 0x0020u16 } else { 0u16 }) | (if inc_v { 0x0040u16 } else { 0u16 })
                | (if hori { 0x0080u16 } else { 0u16 }) | (if vbl { 0x0100u16 } else { 0u16 })
                | (if clear { 0x0200u16 } else { 0u16 }) | (if vert { 0x0400u16 } else { 0u16 })
                | (if sls { 0x0800u16 } else { 0u16 }) | (if sms { 0x1000u16 } else { 0u16 })
                | (if oam_clear { 0x2000u16 } else { 0u16 }) | (if eval { 0x4000u16 } else { 0u16 })
                | (if end { 0x8000u16 } else { 0u16 });
}

/// Each bit of the event word of dot (`y`, `x`) reports its own condition.
pub proof fn lemma_event_at_bits(y: int, x: int)
    ensures
        ({
            let e = event_at(y, x);
            &&& (e & NT != 0) == is_nt_dot(y, x)
            &&& (e & AT != 0) == is_at_dot(y, x)
            &&& (e & BG_LSBITS != 0) == is_bg_ls_dot(y, x)
            &&& (e & BG_MSBITS != 0) == is_bg_ms_dot(y, x)
            &&& (e & INC_HORIZ_V != 0) == is_inc_h_dot(y, x)
            &&& (e & INC_VERT_V != 0) == is_inc_v_dot(y, x)
            &&& (e & HORI_V_EQUALS_HORI_T != 0) == is_hori_dot(y, x)
            &&& (e & SET_VBLANK_FLAG != 0) == is_vbl_dot(y, x)
            &&& (e & CLEAR_FLAGS != 0) == is_clear_dot(y, x)
            &&& (e & VERT_V_EQUALS_VERT_T != 0) == is_vert_dot(y, x)
            &&& (e & SPRITE_LS_BITS != 0) == is_sprite_ls_dot(y, x)
            &&& (e & SPRITE_MS_BITS != 0) == is_sprite_ms_dot(y, x)
            &&& (e & SECONDARY_OAM_CLEAR != 0) == is_oam_clear_dot(y, x)
            &&& (e & SPRITE_EVALUATION != 0) == is_eval_dot(y, x)
            &&& (e & END_SPRITE_EVALUATION != 0) == is_end_eval_dot(y, x)
        }),
{
    lemma_compose_event_bits(is_nt_dot(y, x), is_at_dot(y, x), is_bg_ls_dot(y, x),
        is_bg_ms_dot(y, x), is_inc_h_dot(y, x), is_inc_v_dot(y, x), is_hori_dot(y, x),
        is_vbl_dot(y, x), is_clear_dot(y, x), is_vert_dot(y, x), is_sprite_ls_dot(y, x),
        is_sprite_ms_dot(y, x), is_oam_clear_dot(y, x), is_eval_dot(y, x), is_end_eval_dot(y, x));
}

/// The sprite events of a dot exclude each other, as do the background fetches and the
/// coarse X increment.
pub proof fn lemma_dot_events_exclusive(y: int, x: int)
    ensures
        !(is_eval_dot(y, x) && (is_end_eval_dot(y, x) || is_sprite_ls_dot(y, x) || is_oam_clear_dot(y, x))),
        !(is_end_eval_dot(y, x) && (is_sprite_ls_dot(y, x) || is_oam_clear_dot(y, x))),
        !(is_sprite_ls_dot(y, x) && is_oam_clear_dot(y, x)),
        is_inc_h_dot(y, x) ==> !is_nt_dot(y, x) && !is_at_dot(y, x) && !is_bg_ls_dot(y, x),
        is_eval_dot(y, x) ==> 65 <= x <= 256,
        is_oam_clear_dot(y, x) ==> 1 <= x <= 64,
        is_sprite_ls_dot(y, x) ==> 261 <= x <= 317,
        is_end_eval_dot(y, x) ==> x == 260,
{
    reveal(is_nt_dot);
    reveal(is_at_dot);
    reveal(is_bg_ls_dot);
    reveal(is_bg_ms_dot);
    reveal(is_inc_h_dot);
    reveal(is_inc_v_dot);
    reveal(is_hori_dot);
    reveal(is_vbl_dot);
    reveal(is_clear_dot);
    reveal(is_vert_dot);
    reveal(is_sprite_ls_dot);
    reveal(is_sprite_ms_dot);
    reveal(is_oam_clear_dot);
    reveal(is_eval_dot);
    reveal(is_end_eval_dot);
}

fn flag_if(b: bool, f: u16) -> (r: u16)
    ensures
        r == flag(b, f),
{
    if b { f } else { 0 }
}

/// The events of dot `x` of scanline `y`, as the frame's event table holds them.
pub fn event_flags(y: usize, x: usize) -> (r: u16)
    ensures
        r == event_at(y as int, x as int),
{
    proof {
        reveal(is_nt_dot);
        reveal(is_at_dot);
        reveal(is_bg_ls_dot);
        reveal(is_bg_ms_dot);
        reveal(is_inc_h_dot);
        reveal(is_inc_v_dot);
        reveal(is_hori_dot);
        reveal(is_vbl_dot);
        reveal(is_clear_dot);
        reveal(is_vert_dot);
        reveal(is_sprite_ls_dot);
        reveal(is_sprite_ms_dot);
        reveal(is_oam_clear_dot);
        reveal(is_eval_dot);
        reveal(is_end_eval_dot);
    }
    let render = y < 240 || y == 261;
    let nt = render && ((1 <= x && x <= 249 && x % 8 == 1) || x == 322 || x == 330);
    let at = render && ((3 <= x && x <= 251 && x % 8 == 3) || x == 324 || x == 332);
    let ls = render && ((5 <= x && x <= 253 && x % 8 == 5) || x == 326 || x == 334);
    let ms = render && ((7 <= x && x <= 255 && x % 8 == 7) || x == 328 || x == 336);
    let inc_h = render && ((8 <= x && x <= 256 && x % 8 == 0) || x == 329 || x == 337);
    let inc_v = render && x == 256;
    let hori = render && x == 257;
    let vbl = y == 241 && x == 0;
    let clear = y == 261 && x == 1;
    let vert = y == 261 && 280 <= x && x <= 304;
    let sls = 261 <= x && x <= 317 && x % 8 == 5;
    let sms = 263 <= x && x <= 319 && x % 8 == 7;
    let oam_clear = render && 1 <= x && x <= 64;
    let eval = render && 65 <= x && x <= 256;
    let end = x == 260;
    flag_if(nt, NT) | flag_if(at, AT) | flag_if(ls, BG_LSBITS) | flag_if(ms, BG_MSBITS)
        | flag_if(inc_h, INC_HORIZ_V) | flag_if(inc_v, INC_VERT_V)
        | flag_if(hori, HORI_V_EQUALS_HORI_T) | flag_if(vbl, SET_VBLANK_FLAG)
        | flag_if(clear, CLEAR_FLAGS) | flag_if(vert, VERT_V_EQUALS_VERT_T)
        | flag_if(sls, SPRITE_LS_BITS) | flag_if(sms, SPRITE_MS_BITS)
        | flag_if(oam_clear, SECONDARY_OAM_CLEAR) | flag_if(eval, SPRITE_EVALUATION)
        | flag_if(end, END_SPRITE_EVALUATION)
}

/// The colours that sprite palettes 0-3 ($3F10-$3F1F) hold at power-up.
pub open spec fn power_up_sprite_palette() -> Seq<u8> {
    seq![0x09u8, 0x01, 0x34, 0x03, 0x00, 0x04, 0x00, 0x14, 0x08, 0x3A, 0x00, 0x02, 0x00, 0x20, 0x2C, 0x08]
}

/// Entry `i` of the power-up sprite palettes.
pub fn default_sprite_palette(i: usize) -> (r: u8)
    requires
        i < 16,
    ensures
        r == power_up_sprite_palette()[i as int],
        r < 0x40,
{
    let palette: [u8; 16] = [0x09, 0x01, 0x34, 0x03, 0x00, 0x04, 0x00, 0x14,
        0x08, 0x3A, 0x00, 0x02, 0x00, 0x20, 0x2C, 0x08];
    proof {
        assert(palette@ =~= power_up_sprite_palette());
    }
    let v = palette[i];
    if v < 0x40 { v } else { 0 }
}

/// What a PPU write of `value` at `address` does to the cartridge when the board maps
/// neither nametables nor CHR itself: the nametable RAM that the mirroring selects, or
/// CHR RAM, takes the byte; palette writes leave the cartridge alone.
pub open spec fn vram_written(mapper: MapperBase, new_mapper: MapperBase, address: usize, value: u8) -> bool {
    let after = ppu_mirror_of(address as u16);
    if 0x2000 <= after <= 0x2fff {
        !mapper.config.is_custom_nametable ==> match NesMemory::nametable_of(mapper.config.mirroring, after as usize) {
            VramType::VramA => new_mapper.vram_a@ == mapper.vram_a@.update((after % 0x400) as int, value)
                && new_mapper.vram_b == mapper.vram_b && new_mapper.vram == mapper.vram,
            VramType::VramB => new_mapper.vram_b@ == mapper.vram_b@.update((after % 0x400) as int, value)
                && new_mapper.vram_a == mapper.vram_a && new_mapper.vram == mapper.vram,
            VramType::Vram => new_mapper.vram@ == mapper.vram@.update(after as int, value)
                && new_mapper.vram_a == mapper.vram_a && new_mapper.vram_b == mapper.vram_b,
        } && new_mapper.chr_ram == mapper.chr_ram
    } else if address < 0x3f00 {
        &&& !mapper.config.is_custom_chr ==> new_mapper.chr_ram@ == mapper.chr_ram@.update(after as int, value)
        &&& new_mapper.vram == mapper.vram && new_mapper.vram_a == mapper.vram_a
        &&& new_mapper.vram_b == mapper.vram_b
    } else {
        new_mapper == mapper
    }
}

/// `v` after the coarse X increment of a tile fetch: coarse X counts up, wrapping from 31
/// to 0 and switching the horizontal nametable.
pub open spec fn coarse_x_increment_of(v: u16) -> u16 {
    if v & 0x1f == 31 {
        (v & !0x1fu16) ^ 0x400
    } else {
        (v & !0x1fu16) | (((v & 0x1f) + 1) as u16)
    }
}

/// `v` after the scroll events of one dot: coarse X increment, Y increment, then the
/// copies of the horizontal and vertical bits of `t`.
pub open spec fn scroll_v(v: u16, t: u16, inc_h: bool, inc_v: bool, hori: bool, vert: bool) -> u16 {
    let v1 = if inc_h { coarse_x_increment_of(v) } else { v };
    let v2 = if inc_v { vert_increment_of(v1) } else { v1 };
    let v3 = if hori { (v2 & !hori_mask()) | (t & hori_mask()) } else { v2 };
    if vert { (v3 & !vert_mask()) | (t & vert_mask()) } else { v3 }
}

/// The scroll registers after dot (`y`, `x`): they move only while rendering is enabled on
/// a visible or pre-render scanline.
pub open spec fn scroll_after(ir: IR, y: int, x: int, on: bool) -> IR {
    if on && render_line(y) {
        IR {
            v: scroll_v(ir.v, ir.t, is_inc_h_dot(y, x), is_inc_v_dot(y, x), is_hori_dot(y, x),
                is_vert_dot(y, x)),
            ..ir
        }
    } else {
        ir
    }
}

/// The bit of the background shift registers that the current pixel reads.
pub open spec fn bit_pos(fine_x: u8) -> u16 {
    if fine_x > 15 { 0 } else { (15 - fine_x) as u16 }
}

/// The 4-bit background palette index of the current pixel.
pub open spec fn bg_index_of(fine_x: u8, pattern_low: u16, pattern_high: u16, attr_low: u16, attr_high: u16) -> u16 {
    let pos = bit_pos(fine_x);
    (((attr_high >> pos) & 1) << 3u16) | (((attr_low >> pos) & 1) << 2u16)
        | (((pattern_high >> pos) & 1) << 1u16) | ((pattern_low >> pos) & 1)
}

/// The 2-bit colour of sprite row `s` at dot `dot_x`, 0 (transparent) outside its 8 pixels.
pub open spec fn sprite_color(s: SpriteLatch, dot_x: int) -> u8 {
    let dx = dot_x - s.x;
    if dx < 0 || dx >= 8 {
        0
    } else {
        let bit = if s.attr & 0x40 != 0 { dx as u8 } else { (7 - dx) as u8 };
        (((s.high >> bit) & 1) << 1u8) | ((s.low >> bit) & 1)
    }
}

/// The first sprite row, from `from` on, with an opaque pixel at `dot_x`
/// (`latches.len()` when there is none).
pub open spec fn first_sprite(latches: Seq<SpriteLatch>, dot_x: int, from: int) -> int
    decreases latches.len() - from,
{
    if from < 0 || from >= latches.len() {
        latches.len() as int
    } else if sprite_color(latches[from], dot_x) != 0 {
        from
    } else {
        first_sprite(latches, dot_x, from + 1)
    }
}

/// The colour of the pixel at (`dot_x`, `dot_y`) and whether it is a sprite 0 hit:
/// the background (or the backdrop when it is hidden or clipped), under the first opaque
/// sprite row in OAM order unless that sprite is behind an opaque background pixel.
#[verifier::opaque]
pub open spec fn pixel_of(idx: u16, palette: Seq<u8>, latches: Seq<SpriteLatch>, sprite: bool, bg: bool,
    clip_sprites: bool, clip_background: bool, dot_x: int, dot_y: int) -> (u8, bool)
{
    let bg_pal_addr = if idx & 3 == 0 { 0 } else { (idx & 0x1f) as int };
    let bg_visible = bg && !(dot_x < 8 && clip_background);
    let sprites_visible = sprite && !(dot_x < 8 && clip_sprites);
    let bg_opaque = bg_visible && idx & 3 != 0;
    let base = if bg_visible { palette[bg_pal_addr] } else { palette[0] };
    let k = first_sprite(latches, dot_x, 0);
    if !sprites_visible || k >= latches.len() {
        (base, false)
    } else {
        let s = latches[k];
        let c = sprite_color(s, dot_x);
        let hit = s.source_index == 0 && bg_opaque && bg && dot_y > 0 && dot_x < 255
            && !(dot_x < 8 && (clip_sprites || clip_background));
        let color = if s.attr & 0x20 == 0 || !bg_opaque {
            palette[(0x10 + (s.attr & 3) * 4 + c) % 32]
        } else {
            base
        };
        (color, hit)
    }
}

/// The delay queue after pushing `e` and popping once: what is popped, and the queue.
pub open spec fn queue_after<T>(q: Seq<Element<T>>, delay: usize, now: u64, e: T) -> (Option<T>, Seq<Element<T>>) {
    let pushed = if q.len() >= delay { q } else { q.push(Element { element: e, time: (now + delay - 1) as u64 }) };
    if pushed.len() > 0 && pushed[0].time <= now {
        (Some(pushed[0].element), pushed.drop_first())
    } else {
        (None, pushed)
    }
}

pub open spec fn nt_address(v: u16) -> usize {
    (0x2000 | (v & 0x0fff)) as usize
}

pub open spec fn at_address(v: u16) -> usize {
    let w = v as usize;
    0x23C0 | (w & 0x0C00) | ((w >> 4usize) & 0x38) | ((w >> 2usize) & 0x07)
}

pub open spec fn at_shift(v: u16) -> usize {
    let w = v as usize;
    ((w >> 4usize) & 4) | (w & 2)
}

pub open spec fn pattern_address(base: u16, tile: u8, v: u16) -> usize {
    (base as usize + tile as usize * 16 + (((v as usize) >> 12usize) & 7)) as usize
}

/// The scanline whose sprites are evaluated and fetched during scanline `y`.
pub open spec fn next_line(y: int) -> int {
    if y == 261 { 0 } else { y + 1 }
}

/// A sprite whose OAM Y byte is `oam_y` (its top line minus one) covers visible line `next`.
pub open spec fn sprite_on_line(oam_y: u8, height: u8, next: int) -> bool {
    let sy = oam_y + 1;
    sy <= next && next < sy + height && next < 240
}

/// The pattern-table address of the row of a sprite (top line `sy`, tile, attributes)
/// drawn on line `next`: 8x16 sprites pick their table from bit 0 of the tile and their
/// half from the row, and vertical flip mirrors the row.
pub open spec fn sprite_row_address(ctrl: PpuCtrl, tile: u8, attr: u8, sy: int, next: int) -> usize {
    let y_in = next - sy;
    let v_flip = attr & 0x80 != 0;
    if ctrl.sprite_height == 16 {
        let base_tile = (tile & 0xFE) as int;
        let t = if y_in < 8 {
            if v_flip { base_tile + 1 } else { base_tile }
        } else {
            if v_flip { base_tile } else { base_tile + 1 }
        };
        let y_tile = if y_in < 8 { y_in } else { y_in - 8 };
        let row = if v_flip { 7 - y_tile } else { y_tile };
        let table = if tile & 1 == 0 { 0int } else { 0x1000int };
        (table + t * 16 + row) as usize
    } else {
        let row = if v_flip { 7 - y_in } else { y_in };
        (ctrl.sprite_table + tile * 16 + row) as usize
    }
}

/// The byte that a PPU read of `address` gives when the board maps neither CHR nor
/// nametables itself: nametable RAM for $2000-$2FFF (and its mirror), the palette
/// for $3F00 and up, else CHR.
#[verifier::opaque]
pub open spec fn vram_byte_of(palette: Seq<u8>, mapper: MapperBase, address: usize) -> u8 {
    let after = ppu_mirror_of(address as u16);
    if 0x2000 <= after <= 0x2fff {
        match NesMemory::nametable_of(mapper.config.mirroring, after as usize) {
            VramType::VramA => mapper.vram_a@[(after % 0x400) as int],
            VramType::VramB => mapper.vram_b@[(after % 0x400) as int],
            VramType::Vram => mapper.vram@[after as int],
        }
    } else if address >= 0x3f00 {
        palette[(after & 0x1f) as int]
    } else {
        mapper.chr_ram@[crate::mappers::mapper_base::bank_index(0x1fff, after,
            mapper.config.chr_bank_size_bit, mapper.config.chr_banks@)]
    }
}

/// The picture processing unit, stepped one dot at a time from a table of per-dot events.
#[derive(Clone)]
pub struct Ppu2 {
    /// The events of each dot of a frame.
    pub events: Vec<u16>,
    /// The dot that the next tick renders.
    pub event_index: usize,
    /// 256x240 NES colour indices.
    pub screen: Vec<u8>,
    pub delayed_pixels: Delayed<(usize, u8)>,
    pub _delayed_sprite_colors: Delayed<u8>,
    pub x: u16,
    pub scanline: u16,
    pub nt: u8,
    pub at: u16,
    /// Secondary OAM: the (at most 8) sprites found for the next scanline.
    pub oam2: [u8; 32],
    /// Primary OAM sprite index (0..63) of each secondary OAM entry.
    pub oam2_source_index: [u8; 8],
    /// Secondary OAM write index during sprite evaluation (0..32 step 4).
    pub oam2_eval_index: usize,
    /// Secondary OAM clear index during dots 1..64.
    pub oam2_clear_index: usize,
    /// Sprite fetch cursor during dots 261..320.
    pub sprite_fetch_index: usize,
    /// The sprite rows fetched for the current scanline, in OAM order.
    pub sprite_latches: Vec<SpriteLatch>,
    pub oam: [u8; 256],
    pub oam_address: u8,
    pub open_bus: u8,
    pub tile_index: u8,
    pub pt_lsb: u8,
    pub pt_msb: u8,
    pub palette: u8,
    /// NES colours (0-63) at palette RAM indices 0-31.
    pub palette_table: [u8; 32],
    pub pattern_shift_low: u16,
    pub pattern_shift_high: u16,
    pub attr_shift_low: u16,
    pub attr_shift_high: u16,
    /// Fine X scroll latched at dot 0 of each scanline, so that a write to $2005 in the
    /// middle of a scanline does not misalign the tiles already fetched.
    pub fine_x_latched: u8,
    /// Dots left before the sprite 0 hit flag is raised, -1 when none is pending.
    pub sprite_0_hit_delay: i8,
    /// The frame being drawn is an odd one: with rendering enabled it starts at dot 1.
    pub odd_frame: bool,
}

impl Ppu2 {
    /// The event table holds the event word of every dot of the frame, the beam is in the
    /// frame, the screen holds 256x240 pixels, every pixel waiting in the delay queue is on
    /// the screen, and secondary OAM is filled in whole sprites.
    #[verifier::opaque]
    pub open spec fn wf(self) -> bool {
        &&& self.events@.len() == FRAME_DOTS
        &&& forall|i: int| 0 <= i < FRAME_DOTS ==> #[trigger] self.events@[i] == event_of_index(i)
        &&& self.event_index < FRAME_DOTS
        &&& self.screen@.len() == 61440
        &&& forall|i: int| 0 <= i < self.delayed_pixels.elements@.len()
            ==> (#[trigger] self.delayed_pixels.elements@[i]).element.0 < 61440
        &&& self.oam2_eval_index <= 32
        &&& self.oam2_eval_index % 4 == 0
    }

    fn init_events() -> (r: Vec<u16>)
        ensures
            r@.len() == FRAME_DOTS,
            forall|i: int| 0 <= i < FRAME_DOTS ==> #[trigger] r@[i] == event_of_index(i),
    {
        let mut result: Vec<u16> = Vec::new();
        let mut y: usize = 0;
        while y < HEIGHT
            invariant
                y <= HEIGHT,
                result@.len() == y * WIDTH,
                forall|i: int| 0 <= i < result@.len() ==> #[trigger] result@[i] == event_of_index(i),
            decreases HEIGHT - y,
        {
            let mut x: usize = 0;
            while x < WIDTH
                invariant
                    y < HEIGHT,
                    x <= WIDTH,
                    result@.len() == y * WIDTH + x,
                    forall|i: int| 0 <= i < result@.len() ==> #[trigger] result@[i] == event_of_index(i),
                decreases WIDTH - x,
            {
                let e = event_flags(y, x);
                proof {
                    let i = y * WIDTH + x;
                    assert(i / (WIDTH as int) == y as int && i % (WIDTH as int) == x as int)
                        by (nonlinear_arith)
                        requires i == y * 341 + x, x < 341, WIDTH == 341;
                }
                result.push(e);
                x += 1;
            }
            y += 1;
        }
        result
    }

    /// A PPU at dot 0 of an even frame, with the power-up sprite palettes.
    pub fn new(mapper: &mut MapperBase) -> (r: Self)
        requires
            old(mapper).wf(),
        ensures
            r.wf(),
            *final(mapper) == *old(mapper),
            r.event_index == 0,
            r.x == 0,
            r.scanline == 0,
            !r.odd_frame,
            r.sprite_0_hit_delay == -1,
            r.delayed_pixels.delay == 4,
            r.delayed_pixels.current_time == 0,
            r.delayed_pixels.elements@.len() == 0,
            r.sprite_latches@.len() == 0,
            r.oam2_eval_index == 0,
            r.oam_address == 0,
            r.open_bus == 0,
            r.pattern_shift_low == 0 && r.pattern_shift_high == 0,
            r.attr_shift_low == 0 && r.attr_shift_high == 0,
            forall|i: int| 0 <= i < 256 ==> #[trigger] r.oam@[i] == 0,
            forall|i: int| 0 <= i < 16 ==> #[trigger] r.palette_table@[i] == 0,
    {
        proof {
            reveal(Ppu2::wf);
        }
        let events = Self::init_events();
        let mut result = Self {
            events,
            event_index: 0,
            screen: vec![0u8; 61440],
            delayed_pixels: Delayed::new(4),
            _delayed_sprite_colors: Delayed::new(2),
            x: 0,
            scanline: 0,
            nt: 0,
            at: 0,
            oam2: [0u8; 32],
            oam2_source_index: [0u8; 8],
            oam2_eval_index: 0,
            oam2_clear_index: 0,
            sprite_fetch_index: 0,
            sprite_latches: Vec::new(),
            oam: [0u8; 256],
            oam_address: 0,
            open_bus: 0,
            tile_index: 0,
            pt_lsb: 0,
            pt_msb: 0,
            palette: 0,
            palette_table: [0u8; 32],
            pattern_shift_low: 0,
            pattern_shift_high: 0,
            attr_shift_low: 0,
            attr_shift_high: 0,
            fine_x_latched: 0,
            sprite_0_hit_delay: -1,
            odd_frame: false,
        };
        let mut i: usize = 0;
        while i < 16
            invariant
                i <= 16,
                result.wf(),
                *mapper == *old(mapper),
                mapper.wf(),
                result.event_index == 0 && result.x == 0 && result.scanline == 0,
                !result.odd_frame,
                result.sprite_0_hit_delay == -1,
                result.delayed_pixels.delay == 4,
                result.delayed_pixels.current_time == 0,
                result.delayed_pixels.elements@.len() == 0,
                result.sprite_latches@.len() == 0,
                result.oam2_eval_index == 0,
                result.oam_address == 0,
                result.open_bus == 0,
                result.pattern_shift_low == 0 && result.pattern_shift_high == 0,
                result.attr_shift_low == 0 && result.attr_shift_high == 0,
                forall|j: int| 0 <= j < 256 ==> #[trigger] result.oam@[j] == 0,
                forall|j: int| 0 <= j < 16 ==> #[trigger] result.palette_table@[j] == 0,
            decreases 16 - i,
        {
            proof {
                reveal(Ppu2::wf);
            }
            let color = default_sprite_palette(i);
            result.set_vram(0x3f10 + i, color, mapper);
            proof {
                crate::nes_memory::lemma_mirror_bits(0, i);
            }
            i += 1;
        }
        result
    }

    pub fn get_open_bus(&self) -> (r: u8)
        ensures
            r == self.open_bus,
    {
        self.open_bus
    }

    pub fn set_open_bus(&mut self, value: u8)
        ensures
            *final(self) == (Ppu2 { open_bus: value, ..*old(self) }),
    {
        proof {
            reveal(Ppu2::wf);
        }
        self.open_bus = value;
    }

    /// The byte that a PPU read of `address` gives when the board maps neither CHR nor
    /// nametables itself: nametable RAM for $2000-$2FFF (and its mirror), the palette
    /// for $3F00 and up, else CHR.
    pub open spec fn vram_byte(self, mapper: MapperBase, address: usize) -> u8 {
        vram_byte_of(self.palette_table@, mapper, address)
    }

    /// A plain board: no custom CHR, nametable or CHR read hook.
    pub open spec fn plain_board(mapper: MapperBase) -> bool {
        !mapper.config.is_custom_chr && !mapper.config.is_custom_nametable
            && !mapper.config.on_read_chr_hook
    }

    /// PPU read: nametables through the board's mirroring, palette RAM from $3F00,
    /// pattern tables through the board.
    pub fn get_vram(&self, address: usize, mapper: &mut MapperBase) -> (r: u8)
        requires
            old(mapper).wf(),
        ensures
            final(mapper).wf(),
            final(mapper).chr_ram == old(mapper).chr_ram,
            final(mapper).prg_rom == old(mapper).prg_rom,
            final(mapper).wram == old(mapper).wram,
            final(mapper).vram == old(mapper).vram,
            final(mapper).vram_a == old(mapper).vram_a,
            final(mapper).vram_b == old(mapper).vram_b,
            final(mapper).config.mirroring == old(mapper).config.mirroring,
            final(mapper).config.is_custom_nametable == old(mapper).config.is_custom_nametable,
            Self::plain_board(*old(mapper)) ==> *final(mapper) == *old(mapper)
                && r == vram_byte_of(self.palette_table@, *old(mapper), address),
            ({
                let after = ppu_mirror_of(address as u16);
                !(0x2000 <= after <= 0x2fff) && address >= 0x3f00 ==>
                    r == self.palette_table@[(after & 0x1f) as int] && *final(mapper) == *old(mapper)
            }),
    {
        proof {
            reveal(vram_byte_of);
        }
        let after = NesMemory::ppu_mirrorring(address as u16) as usize;
        if 0x2000 <= after && after <= 0x2fff {
            mapper.read_nametable(after)
        } else if address >= 0x3f00 {
            proof {
                crate::bit_facts::lemma_usize_masks();
                assert(after & 0x1f <= 0x1f);
            }
            self.palette_table[after & 0x1f]
        } else {
            proof {
                crate::nes_memory::lemma_mirror_bits(0, address);
            }
            mapper.read_chr(after as u16)
        }
    }

    /// PPU write: nametables through the board's mirroring, palette RAM (6 bits) from
    /// $3F00, pattern tables through the board.
    pub fn set_vram(&mut self, address: usize, value: u8, mapper: &mut MapperBase)
        requires
            old(mapper).wf(),
        ensures
            final(mapper).wf(),
            final(mapper).config == old(mapper).config,
            final(mapper).prg_rom == old(mapper).prg_rom,
            final(mapper).wram == old(mapper).wram,
            vram_written(*old(mapper), *final(mapper), address, value),
            ({
                let after = ppu_mirror_of(address as u16);
                if 0x2000 <= after <= 0x2fff {
                    *final(self) == *old(self)
                        && final(mapper).chr_ram == old(mapper).chr_ram
                } else if address >= 0x3f00 {
                    *final(self) == (Ppu2 {
                        palette_table: final(self).palette_table,
                        ..*old(self)
                    })
                    && final(self).palette_table@ == old(self).palette_table@.update(
                        (after & 0x1f) as int, value & 0x3f)
                    && *final(mapper) == *old(mapper)
                } else {
                    *final(self) == *old(self)
                        && final(mapper).vram == old(mapper).vram
                        && final(mapper).vram_a == old(mapper).vram_a
                        && final(mapper).vram_b == old(mapper).vram_b
                        && (!old(mapper).config.is_custom_chr ==> final(mapper).chr_ram@
                            == old(mapper).chr_ram@.update(after as int, value))
                }
            }),
    {
        proof {
            reveal(Ppu2::wf);
        }
        let after = NesMemory::ppu_mirrorring(address as u16) as usize;
        if 0x2000 <= after && after <= 0x2fff {
            mapper.write_nametable(after, value);
        } else if address >= 0x3f00 {
            proof {
                crate::bit_facts::lemma_usize_masks();
                assert(after & 0x1f <= 0x1f);
            }
            self.palette_table[after & 0x1f] = value & 0x3f;
        } else {
            proof {
                crate::nes_memory::lemma_mirror_bits(0, address);
            }
            mapper.write_chr(after as u16, value);
        }
    }

    pub fn write_oam(&mut self, address: u8, value: u8)
        ensures
            final(self).oam@ == old(self).oam@.update(address as int, value),
            *final(self) == (Ppu2 { oam: final(self).oam, ..*old(self) }),
    {
        proof {
            reveal(Ppu2::wf);
        }
        self.oam[address as usize] = value;
    }

    /// Moves the beam one dot without rendering: the frame wraps after its last dot,
    /// and the secondary OAM cursors restart at dot 0 of each scanline.
    pub fn update_beam(&mut self, _rendering_enabled: bool)
        requires
            old(self).wf(),
        ensures
            final(self).wf(),
            final(self).event_index == (old(self).event_index + 1) % (FRAME_DOTS as int),
            final(self).x == final(self).event_index as int % WIDTH as int,
            final(self).scanline == final(self).event_index as int / WIDTH as int,
            final(self).x == 0 ==> final(self).oam2_eval_index == 0 && final(self).oam2_clear_index == 0
                && final(self).sprite_fetch_index == 0,
            final(self).x != 0 ==> final(self).oam2_eval_index == old(self).oam2_eval_index
                && final(self).oam2_clear_index == old(self).oam2_clear_index
                && final(self).sprite_fetch_index == old(self).sprite_fetch_index,
            *final(self) == (Ppu2 {
                event_index: final(self).event_index,
                x: final(self).x,
                scanline: final(self).scanline,
                oam2_eval_index: final(self).oam2_eval_index,
                oam2_clear_index: final(self).oam2_clear_index,
                sprite_fetch_index: final(self).sprite_fetch_index,
                ..*old(self)
            }),
    {
        proof {
            reveal(Ppu2::wf);
        }
        self.event_index += 1;
        if self.event_index >= FRAME_DOTS {
            self.event_index = 0;
        }
        self.x = (self.event_index % WIDTH) as u16;
        self.scanline = (self.event_index / WIDTH) as u16;
        if self.x == 0 {
            self.oam2_eval_index = 0;
            self.oam2_clear_index = 0;
            self.sprite_fetch_index = 0;
        }
    }
}

impl Ppu2 {
    /// Coarse X counts up, wrapping from 31 to 0 and switching the horizontal nametable.
    fn increment_scroll_x(ir: &mut IR)
        ensures
            *final(ir) == (IR { v: coarse_x_increment_of(old(ir).v), ..*old(ir) }),
    {
        let v = ir.v;
        if ir.coarse_x() == 31 {
            ir.set_coarse_x(0);
            ir.switch_horizontal_nametable();
            proof {
                Self::lemma_coarse_x_bits(v, 0);
            }
        } else {
            ir.increment_coarse_x();
            let f = ir.v;
            proof {
                Self::lemma_coarse_x_bits(v, f);
            }
        }
    }

    /// Bit facts of the coarse X increment and the nametable fetch address.
    proof fn lemma_coarse_x_bits(v: u16, f: u16)
    by (bit_vector)
    ensures
        ((v & !0x1fu16) | 0) ^ 0x400 == (v & !0x1fu16) ^ 0x400,
        (v & 0x1f) < 31 && (f & 0x1f) == ((v & 0x1f) + 1) % 32 && f & !0x1fu16 == v & !0x1fu16
            ==> f == (v & !0x1fu16) | (((v & 0x1f) + 1) as u16),
        0x2000 | (v as usize & 0x0FFF) == (0x2000 | (v & 0x0fff)) as usize,
{
}

/// The scroll events of one dot, in the order the hardware applies them.
    fn scroll_step(ir: &mut IR, inc_h: bool, inc_v: bool, hori: bool, vert: bool)
        ensures
            *final(ir) == (IR { v: scroll_v(old(ir).v, old(ir).t, inc_h, inc_v, hori, vert), ..*old(ir) }),
    {
        if inc_h {
            // NES coarse-X increment semantics (not raw v+1): wrap 31->0 and switch H nametable.
            Self::increment_scroll_x(ir);
        }
        if inc_v {
            ir.increment_vert_v();
        }
        if hori {
            ir.hori_v_equals_hori_t();
        }
        if vert {
            ir.vert_v_equals_vert_t();
        }
    }

    /// The 2-bit colour of a sprite row at `dot_x`.
    fn latch_color(s: &SpriteLatch, dot_x: u16) -> (r: u8)
        ensures
            r == sprite_color(*s, dot_x as int),
            r < 4,
    {
        let dx: i32 = dot_x as i32 - s.x as i32;
        if dx < 0 || dx >= 8 {
            0
        } else {
            let bit: u8 = if (s.attr & 0x40) != 0 { dx as u8 } else { (7 - dx) as u8 };
            let high = s.high;
            let low = s.low;
            proof {
                crate::bit_facts::lemma_u8_masks();
                assert((((high >> bit) & 1) << 1u8) | ((low >> bit) & 1) < 4);
            }
            (((high >> bit) & 1) << 1u8) | ((low >> bit) & 1)
        }
    }

    /// The colour of the pixel at the current dot, and whether it is a sprite 0 hit.
    fn render_pixel(&self, sprite_rendering: bool, background_rendering: bool, clip_sprites: bool,
        clip_background: bool, dot_x: u16, dot_scanline: u16) -> (r: (u8, bool))
        ensures
            r == pixel_of(bg_index_of(self.fine_x_latched, self.pattern_shift_low, self.pattern_shift_high,
                self.attr_shift_low, self.attr_shift_high), self.palette_table@, self.sprite_latches@,
                sprite_rendering, background_rendering, clip_sprites, clip_background,
                dot_x as int, dot_scanline as int),
    {
        proof {
            reveal(pixel_of);
        }
        let fine_x = self.fine_x_latched;
        let pos: u16 = if fine_x > 15 { 0 } else { 15 - fine_x as u16 };
        let bit0 = (self.pattern_shift_low >> pos) & 1;
        let bit1 = (self.pattern_shift_high >> pos) & 1;
        let attr0 = (self.attr_shift_low >> pos) & 1;
        let attr1 = (self.attr_shift_high >> pos) & 1;
        let idx = (attr1 << 3u16) | (attr0 << 2u16) | (bit1 << 1u16) | bit0;
        proof {
            crate::bit_facts::lemma_u16_masks();
            assert(idx & 0x1f <= 0x1f);
        }
        // Colour index 0 of any palette is transparent and shows the backdrop colour.
        let bg_pal_addr: usize = if (idx & 0x03) == 0 { 0 } else { (idx & 0x1f) as usize };
        let bg_visible = background_rendering && !(dot_x < 8 && clip_background);
        let sprites_visible = sprite_rendering && !(dot_x < 8 && clip_sprites);
        let bg_opaque = bg_visible && (idx & 0x03) != 0;
        let base = if bg_visible { self.palette_table[bg_pal_addr] } else { self.palette_table[0] };

        // OAM order priority: the first opaque sprite pixel wins.
        let n = self.sprite_latches.len();
        let mut k: usize = 0;
        while k < n && Self::latch_color(&self.sprite_latches[k], dot_x) == 0
            invariant
                k <= n,
                n == self.sprite_latches@.len(),
                first_sprite(self.sprite_latches@, dot_x as int, 0)
                    == first_sprite(self.sprite_latches@, dot_x as int, k as int),
            decreases n - k,
        {
            k += 1;
        }
        if !sprites_visible || k >= n {
            (base, false)
        } else {
            let s = self.sprite_latches[k];
            let c = Self::latch_color(&s, dot_x);
            // Sprite 0 hit: both pixels opaque, not at x=255, not clipped on the left.
            let hit = s.source_index == 0 && bg_opaque && background_rendering && dot_scanline > 0
                && dot_x < 255 && !(dot_x < 8 && (clip_sprites || clip_background));
            let color = if (s.attr & 0x20) == 0 || !bg_opaque {
                let pal_idx = 0x10 + ((s.attr & 0x03) as usize) * 4 + c as usize;
                self.palette_table[pal_idx % 32]
            } else {
                base
            };
            (color, hit)
        }
    }
}

/// A PPU whose delay queue can take one more pixel.
pub open spec fn queue_can_step(p: Ppu2) -> bool {
    p.delayed_pixels.current_time + p.delayed_pixels.delay < u64::MAX
}

impl Ppu2 {
    /// Renders the pixel of the current visible dot: latches fine X at dot 0, arms the
    /// sprite 0 hit delay, and sends the pixel through the delay queue to the screen.
    fn emit_pixel(&mut self, sprite_rendering: bool, background_rendering: bool, mask: &PpuMask,
        fine_x: u8, dot_x: u16, dot_scanline: u16)
        requires
            old(self).wf(),
            queue_can_step(*old(self)),
            dot_x < 256,
            dot_scanline < 240,
        ensures
            final(self).wf(),
            ({
                let fx = if dot_x == 0 { fine_x } else { old(self).fine_x_latched };
                let (color, hit) = pixel_of(bg_index_of(fx, old(self).pattern_shift_low,
                    old(self).pattern_shift_high, old(self).attr_shift_low, old(self).attr_shift_high),
                    old(self).palette_table@, old(self).sprite_latches@, sprite_rendering, background_rendering,
                    mask.clip_sprites, mask.clip_background, dot_x as int, dot_scanline as int);
                let index = dot_scanline * 256 + dot_x;
                let (out, q) = queue_after(old(self).delayed_pixels.elements@,
                    old(self).delayed_pixels.delay, old(self).delayed_pixels.current_time,
                    (index as usize, color));
                &&& *final(self) == (Ppu2 {
                    fine_x_latched: fx,
                    sprite_0_hit_delay: if hit && old(self).sprite_0_hit_delay == -1 { 3 }
                        else { old(self).sprite_0_hit_delay },
                    delayed_pixels: final(self).delayed_pixels,
                    screen: final(self).screen,
                    ..*old(self)
                })
                &&& final(self).delayed_pixels.elements@ == q
                &&& final(self).delayed_pixels.delay == old(self).delayed_pixels.delay
                &&& final(self).delayed_pixels.current_time == old(self).delayed_pixels.current_time + 1
                &&& final(self).screen@ == match out {
                    Some((i, c)) => old(self).screen@.update(i as int, c),
                    None => old(self).screen@,
                }
            }),
    {
        proof {
            reveal(Ppu2::wf);
        }
        // Fine X is latched at dot 0 so that a mid-scanline write to $2005 does not
        // misalign the tiles already fetched.
        if dot_x == 0 {
            self.fine_x_latched = fine_x;
        }
        let (color, hit) = self.render_pixel(sprite_rendering, background_rendering,
            mask.clip_sprites, mask.clip_background, dot_x, dot_scanline);
        if hit && self.sprite_0_hit_delay == -1 {
            self.sprite_0_hit_delay = 3;
        }
        let index = dot_scanline as usize * 256 + dot_x as usize;
        let ghost q0 = self.delayed_pixels.elements@;
        let _ = self.delayed_pixels.push((index, color));
        let ghost q1 = self.delayed_pixels.elements@;
        proof {
            assert forall|i: int| 0 <= i < q1.len() implies (#[trigger] q1[i]).element.0 < 61440 by {
                if i < q0.len() {
                    assert(q0[i] == q1[i]);
                }
            }
        }
        match self.delayed_pixels.pop() {
            Some((i, c)) => {
                assert(q1[0].element.0 < 61440);
                self.screen.set(i, c);
            },
            None => {},
        }
        proof {
            let q2 = self.delayed_pixels.elements@;
            assert forall|i: int| 0 <= i < q2.len() implies (#[trigger] q2[i]).element.0 < 61440 by {
                if q2.len() < q1.len() {
                    assert(q2[i] == q1[i + 1]);
                } else {
                    assert(q2[i] == q1[i]);
                }
            }
        }
    }

    /// Background shifters move one bit on the dots of the visible fetch window and the
    /// tile prefetch window.
    fn shift_background(&mut self)
        ensures
            *final(self) == (Ppu2 {
                pattern_shift_low: old(self).pattern_shift_low << 1u16,
                pattern_shift_high: old(self).pattern_shift_high << 1u16,
                attr_shift_low: old(self).attr_shift_low << 1u16,
                attr_shift_high: old(self).attr_shift_high << 1u16,
                ..*old(self)
            }),
    {
        proof {
            reveal(Ppu2::wf);
        }
        self.attr_shift_low = self.attr_shift_low << 1u16;
        self.attr_shift_high = self.attr_shift_high << 1u16;
        self.pattern_shift_low = self.pattern_shift_low << 1u16;
        self.pattern_shift_high = self.pattern_shift_high << 1u16;
    }

    /// Loads the fetched tile into the low 9 bits of the pattern shifters (bits 8..1, so
    /// that it is output MSB first after 7 more shifts) and replicates the attribute bits
    /// into the low byte of the attribute shifters.
    fn reload_shifters(&mut self)
        ensures
            *final(self) == (Ppu2 {
                pattern_shift_low: (old(self).pattern_shift_low & 0xFE00) | ((old(self).pt_lsb as u16) << 1u16),
                pattern_shift_high: (old(self).pattern_shift_high & 0xFE00) | ((old(self).pt_msb as u16) << 1u16),
                attr_shift_low: (old(self).attr_shift_low & 0xFF00)
                    | (if old(self).palette & 1 != 0 { 0x00FFu16 } else { 0u16 }),
                attr_shift_high: (old(self).attr_shift_high & 0xFF00)
                    | (if old(self).palette & 2 != 0 { 0x00FFu16 } else { 0u16 }),
                ..*old(self)
            }),
    {
        proof {
            reveal(Ppu2::wf);
        }
        self.pattern_shift_low = (self.pattern_shift_low & 0xFE00) | ((self.pt_lsb as u16) << 1u16);
        self.pattern_shift_high = (self.pattern_shift_high & 0xFE00) | ((self.pt_msb as u16) << 1u16);
        self.attr_shift_low = (self.attr_shift_low & 0xFF00)
            | if (self.palette & 1) != 0 { 0x00FFu16 } else { 0x0000u16 };
        self.attr_shift_high = (self.attr_shift_high & 0xFF00)
            | if (self.palette & 2) != 0 { 0x00FFu16 } else { 0x0000u16 };
    }

    /// The background fetches of one dot: nametable byte, attribute bits, pattern bytes.
    fn fetch_background(&mut self, nt: bool, at: bool, ls: bool, v: u16, background_table: u16,
        mapper: &mut MapperBase)
        requires
            old(mapper).wf(),
            background_table == 0 || background_table == 0x1000,
        ensures
            final(mapper).wf(),
            final(mapper).config.mirroring == old(mapper).config.mirroring,
            final(mapper).config.is_custom_nametable == old(mapper).config.is_custom_nametable,
            final(mapper).prg_rom == old(mapper).prg_rom,
            final(mapper).wram == old(mapper).wram,
            final(mapper).chr_ram == old(mapper).chr_ram,
            final(mapper).vram == old(mapper).vram,
            final(mapper).vram_a == old(mapper).vram_a,
            final(mapper).vram_b == old(mapper).vram_b,
            *final(self) == (Ppu2 {
                tile_index: final(self).tile_index,
                palette: final(self).palette,
                pt_lsb: final(self).pt_lsb,
                pt_msb: final(self).pt_msb,
                ..*old(self)
            }),
            !nt ==> final(self).tile_index == old(self).tile_index,
            !at ==> final(self).palette == old(self).palette,
            !ls ==> final(self).pt_lsb == old(self).pt_lsb && final(self).pt_msb == old(self).pt_msb,
            Self::plain_board(*old(mapper)) ==> {
                &&& *final(mapper) == *old(mapper)
                &&& nt ==> final(self).tile_index == vram_byte_of(old(self).palette_table@, *old(mapper), nt_address(v))
                &&& at ==> final(self).palette == (vram_byte_of(old(self).palette_table@, *old(mapper), at_address(v))
                    >> at_shift(v)) & 3
                &&& ls ==> final(self).pt_lsb == vram_byte_of(old(self).palette_table@, *old(mapper),
                        pattern_address(background_table, final(self).tile_index, v))
                    && final(self).pt_msb == vram_byte_of(old(self).palette_table@, *old(mapper),
                        (pattern_address(background_table, final(self).tile_index, v) + 8) as usize)
            },
    {
        proof {
            reveal(Ppu2::wf);
        }
        if nt {
            let nt_addr = 0x2000 | (v as usize & 0x0FFF);
            proof {
                Self::lemma_coarse_x_bits(v, 0);
            }
            self.tile_index = self.get_vram(nt_addr, mapper);
        }
        if at {
            let w = v as usize;
            let address = 0x23C0 | (w & 0x0C00) | ((w >> 4usize) & 0x38) | ((w >> 2usize) & 0x07);
            let attribute_data = self.get_vram(address, mapper);
            let shift = ((w >> 4usize) & 4) | (w & 2);
            proof {
                crate::bit_facts::lemma_usize_masks();
                assert(((w >> 4usize) & 4) | (w & 2) <= 6);
            }
            self.palette = (attribute_data >> shift) & 3;
        }
        if ls {
            let tile_addr = background_table as usize + (self.tile_index as usize * 16);
            let fine_y = (v as usize >> 12usize) & 7;
            proof {
                crate::bit_facts::lemma_usize_masks();
                assert((v as usize >> 12usize) & 7 <= 7);
            }
            let ghost before = *self;
            let ghost m0 = *mapper;
            assert(tile_addr + fine_y == pattern_address(background_table, self.tile_index, v));
            self.pt_lsb = self.get_vram(tile_addr + fine_y, mapper);
            assert(self.palette_table == before.palette_table);
            let ghost m1 = *mapper;
            self.pt_msb = self.get_vram(tile_addr + fine_y + 8, mapper);
            proof {
                if Self::plain_board(m0) {
                    assert(m1 == m0);
                    assert(self.pt_msb == vram_byte_of(before.palette_table@, m0, (tile_addr + fine_y + 8) as usize));
                }
            }
        }
    }
}

/// The sprite of primary OAM that dot `x` evaluates (dots 65..128), if it covers the line
/// after `y`.
pub open spec fn evaluated_sprite(oam: Seq<u8>, height: u8, y: int, x: int) -> bool {
    let se = x - 65;
    0 <= se < 64 && sprite_on_line(oam[se * 4], height, next_line(y))
}

/// The sprite row latch that fetch slot `fi` of secondary OAM yields for the line after `y`,
/// with the two pattern bytes `low` and `high`.
pub open spec fn fetched_latch(oam2: Seq<u8>, sources: Seq<u8>, fi: int, low: u8, high: u8) -> SpriteLatch {
    SpriteLatch {
        source_index: sources[fi],
        attr: oam2[fi * 4 + 2],
        x: oam2[fi * 4 + 3] as u16,
        low,
        high,
    }
}

/// The pattern address of the row that fetch slot `fi` reads for the line after `y`.
pub open spec fn fetch_address(oam2: Seq<u8>, ctrl: PpuCtrl, fi: int, y: int) -> usize {
    sprite_row_address(ctrl, oam2[fi * 4 + 1], oam2[fi * 4 + 2], oam2[fi * 4] + 1, next_line(y))
}

impl Ppu2 {
    /// Sprite evaluation at dot `dot_x`: sprite `dot_x - 65` of primary OAM goes to the next
    /// free slot of secondary OAM when it covers the next line; a ninth such sprite raises
    /// the sprite overflow flag instead.
    fn evaluate_sprite(&mut self, memory: &mut NesMemory, dot_x: u16, dot_scanline: u16)
        requires
            old(self).wf(),
            old(memory).wf(),
            dot_scanline < 262,
        ensures
            final(self).wf(),
            final(memory).wf(),
            ({
                let found = evaluated_sprite(old(self).oam@, old(memory).ppu_ctrl.sprite_height,
                    dot_scanline as int, dot_x as int);
                let count = old(self).oam2_eval_index / 4;
                let se = dot_x - 65;
                let e = old(self).oam2_eval_index as int;
                &&& found && count == 8 ==> *final(self) == *old(self)
                    && final(memory).memory@ == old(memory).memory@.update(0x2002,
                        old(memory).memory@[0x2002] | (1u8 << BIT_SPRITE_OVERFLOW))
                    && *final(memory) == (NesMemory { memory: final(memory).memory, ..*old(memory) })
                &&& found && count < 8 ==> *final(memory) == *old(memory)
                    && *final(self) == (Ppu2 {
                        oam2: final(self).oam2,
                        oam2_source_index: final(self).oam2_source_index,
                        oam2_eval_index: (old(self).oam2_eval_index + 4) as usize,
                        ..*old(self)
                    })
                    && final(self).oam2@ == old(self).oam2@.update(e, old(self).oam@[se * 4])
                        .update(e + 1, old(self).oam@[se * 4 + 1])
                        .update(e + 2, old(self).oam@[se * 4 + 2])
                        .update(e + 3, old(self).oam@[se * 4 + 3])
                    && final(self).oam2_source_index@ == old(self).oam2_source_index@.update(count as int, se as u8)
                &&& !found ==> *final(self) == *old(self) && *final(memory) == *old(memory)
            }),
    {
        proof {
            reveal(Ppu2::wf);
        }
        let sprite_count = self.oam2_eval_index / 4;
        if dot_x >= 65 && dot_x - 65 < 64 {
            let sprite_evaluated = (dot_x - 65) as usize;
            let oam_index = sprite_evaluated * 4;
            let sprite_height = memory.ppu_ctrl.sprite_height as u16;
            // OAM stores Y-1: the sprite's top line is OAM Y + 1.
            let sprite_y = self.oam[oam_index] as u16 + 1;
            // The pre-render scanline evaluates sprites for scanline 0.
            let next_scanline = if dot_scanline == 261 { 0u16 } else { dot_scanline + 1 };
            if sprite_y <= next_scanline && next_scanline < sprite_y + sprite_height && next_scanline < 240 {
                if sprite_count == 8 {
                    memory.set_bit(0x2002, BIT_SPRITE_OVERFLOW);
                } else {
                    let e = self.oam2_eval_index;
                    self.oam2_source_index[sprite_count] = sprite_evaluated as u8;
                    self.oam2[e] = self.oam[oam_index];
                    self.oam2[e + 1] = self.oam[oam_index + 1];
                    self.oam2[e + 2] = self.oam[oam_index + 2];
                    self.oam2[e + 3] = self.oam[oam_index + 3];
                    self.oam2_eval_index = e + 4;
                }
            }
        }
    }

    /// Sprite fetch: the next sprite of secondary OAM gets its pattern row fetched into a
    /// latch for the next line.
    fn fetch_sprite(&mut self, memory: &mut NesMemory, dot_scanline: u16)
        requires
            old(self).wf(),
            old(memory).wf(),
            dot_scanline < 262,
        ensures
            final(self).wf(),
            final(memory).wf(),
            *final(memory) == (NesMemory { mapper: final(memory).mapper, ..*old(memory) }),
            final(memory).mapper.config.mirroring == old(memory).mapper.config.mirroring,
            final(memory).mapper.config.is_custom_nametable == old(memory).mapper.config.is_custom_nametable,
            final(memory).mapper.chr_ram == old(memory).mapper.chr_ram,
            final(memory).mapper.prg_rom == old(memory).mapper.prg_rom,
            final(memory).mapper.wram == old(memory).mapper.wram,
            final(memory).mapper.vram == old(memory).mapper.vram,
            final(memory).mapper.vram_a == old(memory).mapper.vram_a,
            final(memory).mapper.vram_b == old(memory).mapper.vram_b,
            ({
                let fi = old(self).sprite_fetch_index as int;
                let count = old(self).oam2_eval_index as int / 4;
                let on = sprite_on_line(old(self).oam2@[fi * 4], old(memory).ppu_ctrl.sprite_height,
                    next_line(dot_scanline as int));
                let latches = final(self).sprite_latches@;
                &&& fi >= count ==> *final(self) == *old(self) && *final(memory) == *old(memory)
                &&& fi < count && !on ==> *final(memory) == *old(memory)
                    && *final(self) == (Ppu2 { sprite_fetch_index: (fi + 1) as usize, ..*old(self) })
                &&& fi < count && on ==> {
                    &&& *final(self) == (Ppu2 {
                        sprite_fetch_index: (fi + 1) as usize,
                        sprite_latches: final(self).sprite_latches,
                        ..*old(self)
                    })
                    &&& latches.len() == old(self).sprite_latches@.len() + 1
                    &&& latches == old(self).sprite_latches@.push(
                        fetched_latch(old(self).oam2@, old(self).oam2_source_index@, fi, latches.last().low, latches.last().high))
                    &&& Self::plain_board(old(memory).mapper) ==> final(memory).mapper == old(memory).mapper
                        && latches.last().low == vram_byte_of(old(self).palette_table@, old(memory).mapper,
                            fetch_address(old(self).oam2@, old(memory).ppu_ctrl, fi, dot_scanline as int))
                        && latches.last().high == vram_byte_of(old(self).palette_table@, old(memory).mapper,
                            (fetch_address(old(self).oam2@, old(memory).ppu_ctrl, fi, dot_scanline as int) + 8) as usize)
                }
            }),
    {
        proof {
            reveal(Ppu2::wf);
        }
        let sprite_count = self.oam2_eval_index / 4;
        if self.sprite_fetch_index < sprite_count {
            let fi = self.sprite_fetch_index;
            let off = fi * 4;
            let source_index = self.oam2_source_index[fi];
            // OAM stores Y-1: the sprite's top line is OAM Y + 1.
            let sprite_y = self.oam2[off] as u16 + 1;
            let tile_index = self.oam2[off + 1];
            let attr = self.oam2[off + 2];
            let sprite_x = self.oam2[off + 3] as u16;
            // On the pre-render scanline the fetch is for scanline 0.
            let next_scanline = if dot_scanline == 261 { 0u16 } else { dot_scanline + 1 };
            let sprite_height = memory.ppu_ctrl.sprite_height as u16;
            if sprite_y <= next_scanline && next_scanline < sprite_y + sprite_height && next_scanline < 240 {
                let y_in_sprite = next_scanline - sprite_y;
                let v_flip = (attr & 0x80) != 0;
                let tile_offset: usize = if sprite_height == 16 {
                    // 8x16: bit 0 of the tile selects the table, the row the half; vertical
                    // flip swaps the halves.
                    let base_tile = (tile_index & 0xFE) as usize;
                    let tile = if y_in_sprite < 8 {
                        if v_flip { base_tile + 1 } else { base_tile }
                    } else {
                        if v_flip { base_tile } else { base_tile + 1 }
                    };
                    let y_in_tile = if y_in_sprite < 8 { y_in_sprite } else { y_in_sprite - 8 };
                    let row = if v_flip { 7 - y_in_tile } else { y_in_tile };
                    let table: usize = if (tile_index & 1) == 0 { 0 } else { 0x1000 };
                    table + tile * 16 + row as usize
                } else {
                    let row = if v_flip { 7 - y_in_sprite } else { y_in_sprite };
                    memory.ppu_ctrl.sprite_table as usize + tile_index as usize * 16 + row as usize
                };
                let ghost m0 = memory.mapper;
                let low = self.get_vram(tile_offset, &mut memory.mapper);
                let high = self.get_vram(tile_offset + 8, &mut memory.mapper);
                proof {
                    if Self::plain_board(m0) {
                        assert(tile_offset == fetch_address(self.oam2@, memory.ppu_ctrl, fi as int, dot_scanline as int));
                    }
                }
                self.sprite_latches.push(SpriteLatch { source_index, attr, x: sprite_x, low, high });
            }
            self.sprite_fetch_index = fi + 1;
        }
    }

    /// Secondary OAM clear: one byte of secondary OAM set to $FF per event.
    fn clear_secondary_oam(&mut self)
        requires
            old(self).wf(),
        ensures
            final(self).wf(),
            old(self).oam2_clear_index < 32 ==> *final(self) == (Ppu2 {
                oam2: final(self).oam2,
                oam2_clear_index: (old(self).oam2_clear_index + 1) as usize,
                ..*old(self)
            }) && final(self).oam2@ == old(self).oam2@.update(old(self).oam2_clear_index as int, 0xff),
            old(self).oam2_clear_index >= 32 ==> *final(self) == *old(self),
    {
        proof {
            reveal(Ppu2::wf);
        }
        if self.oam2_clear_index < 32 {
            let i = self.oam2_clear_index;
            self.oam2[i] = 0xff;
            self.oam2_clear_index = i + 1;
        }
    }
}

/// The first half of a dot (`x`, `y`): the PPUMASK delays count down, a pending sprite 0
/// hit counts down (raising its flag when it runs out), the beam moves on (the frame wraps
/// after its last dot, skipping dot 0 of odd frames while rendering; the secondary OAM
/// cursors restart at dot 0 of each line), the pixel of a visible dot goes through the
/// delay queue to the screen, and the background shifters move on the fetch dots.
pub open spec fn front_step(p: Ppu2, m: NesMemory, q: Ppu2, n: NesMemory, sprite_rendering: bool,
    background_rendering: bool, x: int, y: int) -> bool
{
    let ei = p.event_index as int;
    let rendering = sprite_rendering || background_rendering;
    let wrap = ei + 1 == FRAME_DOTS;
    let reset = wrap || x == 0;
    let visible = y < 240 && x < 256;
    let mask = m.ppu_mask.ticked();
    let fx = if visible && x == 0 { m.ir.x } else { p.fine_x_latched };
    let (color, hit) = pixel_of(bg_index_of(fx, p.pattern_shift_low,
        p.pattern_shift_high, p.attr_shift_low, p.attr_shift_high),
        p.palette_table@, p.sprite_latches@, sprite_rendering,
        background_rendering, mask.clip_sprites, mask.clip_background, x, y);
    let d1 = hit_delay_counted(p.sprite_0_hit_delay);
    let (out, queue) = queue_after(p.delayed_pixels.elements@,
        p.delayed_pixels.delay, p.delayed_pixels.current_time,
        ((y * 256 + x) as usize, color));
    let sh = bg_shift_on(background_rendering, y, x);
    &&& n.ppu_mask == mask
    &&& n.memory@ == m.memory@.update(0x2002, status_after(
        m.memory@[0x2002],
        p.sprite_0_hit_delay == 0 || p.sprite_0_hit_delay == 1,
        false, false, false))
    &&& n == (NesMemory {
        memory: n.memory,
        ppu_mask: n.ppu_mask,
        ..m
    })
    &&& wrap ==> q.odd_frame == !p.odd_frame
        && q.event_index == frame_start_index(q.odd_frame, rendering)
        && q.x == q.event_index
        && q.scanline == 0
    &&& !wrap ==> q.odd_frame == p.odd_frame
        && q.event_index == ei + 1
        && q.x == x
        && q.scanline == y
    &&& q == (Ppu2 {
        event_index: q.event_index,
        odd_frame: q.odd_frame,
        x: q.x,
        scanline: q.scanline,
        fine_x_latched: fx,
        sprite_0_hit_delay: if visible && hit && d1 == -1 { 3 } else { d1 },
        delayed_pixels: if visible { q.delayed_pixels } else { p.delayed_pixels },
        screen: if visible { q.screen } else { p.screen },
        pattern_shift_low: shifted(p.pattern_shift_low, sh),
        pattern_shift_high: shifted(p.pattern_shift_high, sh),
        attr_shift_low: shifted(p.attr_shift_low, sh),
        attr_shift_high: shifted(p.attr_shift_high, sh),
        oam2_eval_index: if reset { 0 } else { p.oam2_eval_index },
        oam2_clear_index: if reset { 0 } else { p.oam2_clear_index },
        sprite_fetch_index: if reset { 0 } else { p.sprite_fetch_index },
        ..p
    })
    &&& visible ==> {
        &&& q.delayed_pixels.elements@ == queue
        &&& q.delayed_pixels.delay == p.delayed_pixels.delay
        &&& q.delayed_pixels.current_time == p.delayed_pixels.current_time + 1
        &&& q.screen@ == match out {
            Some((i, c)) => p.screen@.update(i as int, c),
            None => p.screen@,
        }
    }
}

/// The background half of a dot: nametable, attribute and pattern fetches, the shifter
/// reload and the scroll updates while rendering on visible and pre-render lines, and the
/// VBL and clear-flags events.
pub open spec fn background_step(p: Ppu2, m: NesMemory, q: Ppu2, n: NesMemory, sprite_rendering: bool,
    background_rendering: bool, nt: bool, at: bool, ls: bool, inc_h: bool, inc_v: bool, hori: bool, vert: bool, vbl: bool,
    clear_flags: bool, render_line: bool) -> bool
{
    let rendering_enabled = sprite_rendering || background_rendering;
    let reload = rendering_enabled && render_line && inc_h;
    let v = m.ir.v;
    let bt = m.ppu_ctrl.background_table;
    &&& n.ir == (if rendering_enabled && render_line {
        IR { v: scroll_v(m.ir.v, m.ir.t, inc_h, inc_v, hori, vert), ..m.ir }
    } else {
        m.ir
    })
    &&& n.memory@ == m.memory@.update(0x2002, status_after(
        m.memory@[0x2002], false, vbl, clear_flags, false))
    &&& n == (NesMemory {
        ir: n.ir,
        memory: n.memory,
        mapper: n.mapper,
        ..m
    })
    &&& q == (Ppu2 {
        tile_index: q.tile_index,
        palette: q.palette,
        pt_lsb: q.pt_lsb,
        pt_msb: q.pt_msb,
        pattern_shift_low: reloaded_pattern(p.pattern_shift_low, q.pt_lsb, reload),
        pattern_shift_high: reloaded_pattern(p.pattern_shift_high, q.pt_msb, reload),
        attr_shift_low: reloaded_attr(p.attr_shift_low, q.palette & 1 != 0, reload),
        attr_shift_high: reloaded_attr(p.attr_shift_high, q.palette & 2 != 0, reload),
        ..p
    })
    &&& !nt ==> q.tile_index == p.tile_index
    &&& !at ==> q.palette == p.palette
    &&& !ls ==> q.pt_lsb == p.pt_lsb && q.pt_msb == p.pt_msb
    &&& Ppu2::plain_board(m.mapper) ==> {
        &&& n.mapper == m.mapper
        &&& nt ==> q.tile_index == vram_byte_of(p.palette_table@,
            m.mapper, nt_address(v))
        &&& at ==> q.palette == (vram_byte_of(p.palette_table@,
            m.mapper, at_address(v)) >> at_shift(v)) & 3
        &&& ls ==> q.pt_lsb == vram_byte_of(p.palette_table@, m.mapper,
                pattern_address(bt, q.tile_index, v))
            && q.pt_msb == vram_byte_of(p.palette_table@, m.mapper,
                (pattern_address(bt, q.tile_index, v) + 8) as usize)
    }
}

/// The sprite work of a dot: evaluation of one primary OAM sprite for the next line (with
/// the overflow flag on a ninth one), the end of evaluation, the fetch of one sprite row
/// and the clearing of one secondary OAM byte.
pub open spec fn sprite_step(p: Ppu2, m: NesMemory, q: Ppu2, n: NesMemory, sprite_rendering: bool,
    background_rendering: bool, eval: bool, end: bool, fetch: bool, clear: bool, x: int, y: int) -> bool
{
    let rendering_enabled = sprite_rendering || background_rendering;
                                    let found = rendering_enabled && eval && evaluated_sprite(p.oam@,
        m.ppu_ctrl.sprite_height, y, x);
    let count = p.oam2_eval_index / 4;
    let se = x - 65;
    let e = p.oam2_eval_index as int;
    let fi = p.sprite_fetch_index as int;
    let fcount = p.oam2_eval_index as int / 4;
    let on = sprite_on_line(p.oam2@[fi * 4], m.ppu_ctrl.sprite_height,
        next_line(y));
    let latches = q.sprite_latches@;
    let doing_fetch = rendering_enabled && fetch && fi < fcount;
    &&& n == (NesMemory { memory: n.memory, mapper: n.mapper, ..m })
    &&& n.memory@ == (if found && count == 8 {
            m.memory@.update(0x2002, m.memory@[0x2002] | (1u8 << BIT_SPRITE_OVERFLOW))
        } else {
            m.memory@
        })
    &&& !(doing_fetch && on) ==> n.mapper == m.mapper
    &&& q == (Ppu2 {
        oam2: q.oam2,
        oam2_source_index: q.oam2_source_index,
        oam2_eval_index: q.oam2_eval_index,
        oam2_clear_index: q.oam2_clear_index,
        sprite_fetch_index: q.sprite_fetch_index,
        sprite_latches: q.sprite_latches,
        ..p
    })
    &&& doing_fetch && on && Ppu2::plain_board(m.mapper) ==>
        n.mapper == m.mapper
        && latches.last().low == vram_byte_of(p.palette_table@,
            m.mapper, fetch_address(p.oam2@, m.ppu_ctrl, fi, y))
        && latches.last().high == vram_byte_of(p.palette_table@, m.mapper,
            (fetch_address(p.oam2@, m.ppu_ctrl, fi, y) + 8) as usize)
    &&& q.oam2_eval_index == (if found && count < 8 { e + 4 } else { e })
    &&& q.oam2_clear_index == (if clear && p.oam2_clear_index < 32 {
            p.oam2_clear_index + 1 } else { p.oam2_clear_index as int })
    &&& q.sprite_fetch_index == (if end { 0int } else if doing_fetch { fi + 1 } else { fi })
    &&& q.oam2@ == (if found && count < 8 {
            p.oam2@.update(e, p.oam@[se * 4])
                .update(e + 1, p.oam@[se * 4 + 1])
                .update(e + 2, p.oam@[se * 4 + 2])
                .update(e + 3, p.oam@[se * 4 + 3])
        } else if clear && p.oam2_clear_index < 32 {
            p.oam2@.update(p.oam2_clear_index as int, 0xff)
        } else {
            p.oam2@
        })
    &&& q.oam2_source_index@ == (if found && count < 8 {
            p.oam2_source_index@.update(count as int, se as u8)
        } else {
            p.oam2_source_index@
        })
    &&& latches == (if end {
            Seq::empty()
        } else if doing_fetch && on {
            p.sprite_latches@.push(fetched_latch(p.oam2@,
                p.oam2_source_index@, fi, latches.last().low, latches.last().high))
        } else {
            p.sprite_latches@
        })
}

/// The dot that follows the last dot of a frame: dot 1 of an odd frame when rendering is
/// enabled (dot 0 is skipped), else dot 0.
pub open spec fn frame_start_index(odd_frame: bool, rendering: bool) -> usize {
    if odd_frame && rendering { 1 } else { 0 }
}

/// $2002 after one dot: a sprite 0 hit whose delay ran out, the VBL flag raised at the
/// start of vertical blank, the three flags cleared on the pre-render line, and a sprite
/// overflow found by sprite evaluation.
#[verifier::opaque]
pub open spec fn status_after(s: u8, hit_now: bool, vbl: bool, clear: bool, overflow: bool) -> u8 {
    let s1 = if hit_now { s | (1u8 << BIT_SPRITE_0_HIT) } else { s };
    let s2 = if vbl { s1 | (1u8 << BIT_VBL) } else { s1 };
    let s3 = if clear {
        s2 & !(1u8 << BIT_VBL) & !(1u8 << BIT_SPRITE_0_HIT) & !(1u8 << BIT_SPRITE_OVERFLOW)
    } else {
        s2
    };
    if overflow { s3 | (1u8 << BIT_SPRITE_OVERFLOW) } else { s3 }
}

/// The sprite 0 hit delay after its countdown at the start of a dot.
pub open spec fn hit_delay_counted(d: i8) -> i8 {
    let d1 = if d > 0 { (d - 1) as i8 } else { d };
    if d1 == 0 { -1i8 } else { d1 }
}

/// The background shifters move on the visible fetch dots and the prefetch dots.
pub open spec fn bg_shift_on(bg: bool, y: int, x: int) -> bool {
    bg && render_line(y) && ((1 <= x <= 256) || (321 <= x < 337))
}

pub open spec fn shifted(v: u16, on: bool) -> u16 {
    if on { v << 1u16 } else { v }
}

pub open spec fn reloaded_pattern(v: u16, byte: u8, on: bool) -> u16 {
    if on { (v & 0xFE00) | ((byte as u16) << 1u16) } else { v }
}

pub open spec fn reloaded_attr(v: u16, bit: bool, on: bool) -> u16 {
    if on { (v & 0xFF00) | (if bit { 0x00FFu16 } else { 0u16 }) } else { v }
}

/// One dot of the PPU, from `p` with the bus `m` to `q` with the bus `n`, with the given
/// rendering flags, reporting `r`: the flags of the dot (VBL, frame start and end), the
/// mask's delayed rendering flags, the scroll registers, the move to the next dot (the next
/// frame after the last one, with the odd-frame skip), and the background, sprite and
/// status work of the dot's events.
pub open spec fn dot_rendered(p: Ppu2, m: NesMemory, q: Ppu2, n: NesMemory, sprite_rendering: bool,
    background_rendering: bool, r: PpuResult) -> bool {
    let ei = p.event_index as int;
    let y = ei / WIDTH as int;
    let x = ei % WIDTH as int;
    let rendering = sprite_rendering || background_rendering;
    &&& r == (PpuResult {
        vbl: is_vbl_dot(y, x),
        frame_start: y == 0 && x == 0,
        frame_end: y == 240 && x == 0,
        irq_requested: false,
    })
    &&& n.ppu_mask == m.ppu_mask.ticked()
    &&& n.ir == scroll_after(m.ir, y, x, rendering)
    &&& ei + 1 == FRAME_DOTS ==> q.odd_frame == !p.odd_frame
        && q.event_index == frame_start_index(q.odd_frame, rendering)
        && q.x == q.event_index
        && q.scanline == 0
    &&& ei + 1 != FRAME_DOTS ==> q.odd_frame == p.odd_frame
        && q.event_index == ei + 1
        && q.x == x
        && q.scanline == y
    &&& exists|p1: Ppu2, m1: NesMemory, p2: Ppu2, m2: NesMemory|
        #[trigger] front_step(p, m, p1, m1, sprite_rendering,
            background_rendering, x, y)
        && #[trigger] background_step(p1, m1, p2, m2, sprite_rendering, background_rendering,
            is_nt_dot(y, x),
            is_at_dot(y, x), is_bg_ls_dot(y, x), is_inc_h_dot(y, x), is_inc_v_dot(y, x),
            is_hori_dot(y, x), is_vert_dot(y, x), is_vbl_dot(y, x), is_clear_dot(y, x),
            render_line(y))
        && #[trigger] sprite_step(p2, m2, q, n, sprite_rendering,
            background_rendering,
            is_eval_dot(y, x), is_end_eval_dot(y, x), is_sprite_ls_dot(y, x),
            is_oam_clear_dot(y, x), x, y)
}

impl Ppu2 {
    /// Moves the beam to the next dot; after the last dot of a frame the next frame
    /// starts (skipping dot 0 of odd frames while rendering) and the secondary OAM cursors
    /// restart, as they do at dot 0 of every scanline.
    fn advance_beam(&mut self, rendering_enabled: bool)
        requires
            old(self).wf(),
            old(self).x == old(self).event_index as int % WIDTH as int,
        ensures
            final(self).wf(),
            ({
                let wrap = old(self).event_index + 1 == FRAME_DOTS;
                let reset = wrap || old(self).x == 0;
                &&& wrap ==> final(self).odd_frame == !old(self).odd_frame
                    && final(self).event_index == frame_start_index(final(self).odd_frame, rendering_enabled)
                    && final(self).x == final(self).event_index
                    && final(self).scanline == 0
                &&& !wrap ==> final(self).odd_frame == old(self).odd_frame
                    && final(self).event_index == old(self).event_index + 1
                    && final(self).x == old(self).x
                    && final(self).scanline == old(self).scanline
                &&& *final(self) == (Ppu2 {
                    event_index: final(self).event_index,
                    odd_frame: final(self).odd_frame,
                    x: final(self).x,
                    scanline: final(self).scanline,
                    oam2_eval_index: if reset { 0 } else { old(self).oam2_eval_index },
                    oam2_clear_index: if reset { 0 } else { old(self).oam2_clear_index },
                    sprite_fetch_index: if reset { 0 } else { old(self).sprite_fetch_index },
                    ..*old(self)
                })
            }),
    {
        proof {
            reveal(Ppu2::wf);
        }
        self.event_index = self.event_index + 1;
        if self.event_index >= FRAME_DOTS {
            // End of frame. Odd frames start at dot 1 when rendering is enabled.
            self.odd_frame = !self.odd_frame;
            self.event_index = if self.odd_frame && rendering_enabled { 1 } else { 0 };
            self.x = self.event_index as u16;
            self.scanline = 0;
            self.oam2_eval_index = 0;
            self.oam2_clear_index = 0;
            self.sprite_fetch_index = 0;
        } else if self.x == 0 {
            // Start of a scanline.
            self.oam2_eval_index = 0;
            self.oam2_clear_index = 0;
            self.sprite_fetch_index = 0;
        }
    }

    /// Renders one dot: the events of the dot in the frame's event table (background
    /// fetches, scroll updates, status flags, sprite evaluation and fetches), the pixel of
    /// visible dots, and the move to the next dot. Besides the dot itself, it reports the
    /// frame start, the end of the picture and VBL (which sets the VBL bit of PPUSTATUS)
    /// from the dot's place in the frame; at the frame wrap the sprite cursors restart at
    /// 0; with rendering off, the scroll registers and the background shifters keep their
    /// values; with the background on, the shifters move left on the fetch dots of the
    /// rendered lines unless the dot reloads them.
    #[verifier::rlimit(60)]
    #[verifier::spinoff_prover]
    pub fn tick(&mut self, sprite_rendering: bool, background_rendering: bool, memory: &mut NesMemory)
        -> (r: PpuResult)
        requires
            old(self).wf(),
            old(memory).wf(),
            queue_can_step(*old(self)),
        ensures
            final(self).wf(),
            final(memory).wf(),
            dot_rendered(*old(self), *old(memory), *final(self), *final(memory), sprite_rendering,
                background_rendering, r),
            r.frame_start == (old(self).event_index == 0),
            r.frame_end == (old(self).event_index == 240 * 341),
            r.vbl == (old(self).event_index == 241 * 341),
            r.vbl ==> final(memory).memory@[0x2002] & (1u8 << BIT_VBL) != 0,
            old(self).event_index + 1 == FRAME_DOTS ==> final(self).oam2_eval_index == 0
                && final(self).oam2_clear_index == 0 && final(self).sprite_fetch_index == 0,
            !sprite_rendering && !background_rendering ==> final(memory).ir == old(memory).ir
                && final(self).pattern_shift_low == old(self).pattern_shift_low
                && final(self).pattern_shift_high == old(self).pattern_shift_high
                && final(self).attr_shift_low == old(self).attr_shift_low
                && final(self).attr_shift_high == old(self).attr_shift_high,
            ({
                let y = old(self).event_index as int / WIDTH as int;
                let x = old(self).event_index as int % WIDTH as int;
                let on = bg_shift_on(true, y, x);
                background_rendering && !is_inc_h_dot(y, x) ==>
                    final(self).pattern_shift_low == shifted(old(self).pattern_shift_low, on)
                    && final(self).pattern_shift_high == shifted(old(self).pattern_shift_high, on)
                    && final(self).attr_shift_low == shifted(old(self).attr_shift_low, on)
                    && final(self).attr_shift_high == shifted(old(self).attr_shift_high, on)
            }),
    {
        let ghost p0 = *self;
        let ghost m0 = *memory;
        assert(p0.event_index < FRAME_DOTS) by {
            reveal(Ppu2::wf);
        }
        let r = self.run_dot(sprite_rendering, background_rendering, memory);
        proof {
            assert(dot_rendered(p0, m0, *self, *memory, sprite_rendering, background_rendering, r));
            crate::dot_laws::lemma_dot_flags(p0, m0, *self, *memory, sprite_rendering,
                background_rendering, r);
            if p0.event_index + 1 == FRAME_DOTS {
                crate::dot_laws::lemma_frame_wrap_cursors(p0, m0, *self, *memory, sprite_rendering,
                    background_rendering, r);
            }
            if !sprite_rendering && !background_rendering {
                crate::dot_laws::lemma_dot_without_rendering(p0, m0, *self, *memory, r);
            }
            let y = p0.event_index as int / WIDTH as int;
            let x = p0.event_index as int % WIDTH as int;
            if background_rendering && !is_inc_h_dot(y, x) {
                crate::dot_laws::lemma_background_shift(p0, m0, *self, *memory, sprite_rendering, r);
            }
        }
        r
    }

    /// The work of one dot, as `tick` states it.
    #[verifier::rlimit(100)]
    #[verifier::spinoff_prover]
    fn run_dot(&mut self, sprite_rendering: bool, background_rendering: bool, memory: &mut NesMemory)
        -> (r: PpuResult)
        requires
            old(self).wf(),
            old(memory).wf(),
            queue_can_step(*old(self)),
        ensures
            final(self).wf(),
            final(memory).wf(),
            ({
                let ei = old(self).event_index as int;
                let y = ei / WIDTH as int;
                let x = ei % WIDTH as int;
                let rendering = sprite_rendering || background_rendering;
                &&& r == (PpuResult {
                    vbl: is_vbl_dot(y, x),
                    frame_start: y == 0 && x == 0,
                    frame_end: y == 240 && x == 0,
                    irq_requested: false,
                })
                &&& final(memory).ppu_mask == old(memory).ppu_mask.ticked()
                &&& final(memory).ir == scroll_after(old(memory).ir, y, x, rendering)
                &&& ei + 1 == FRAME_DOTS ==> final(self).odd_frame == !old(self).odd_frame
                    && final(self).event_index == frame_start_index(final(self).odd_frame, rendering)
                    && final(self).x == final(self).event_index
                    && final(self).scanline == 0
                &&& ei + 1 != FRAME_DOTS ==> final(self).odd_frame == old(self).odd_frame
                    && final(self).event_index == ei + 1
                    && final(self).x == x
                    && final(self).scanline == y
                &&& exists|p1: Ppu2, m1: NesMemory, p2: Ppu2, m2: NesMemory|
                    #[trigger] front_step(*old(self), *old(memory), p1, m1, sprite_rendering,
                        background_rendering, x, y)
                    && #[trigger] background_step(p1, m1, p2, m2, sprite_rendering, background_rendering,
                        is_nt_dot(y, x),
                        is_at_dot(y, x), is_bg_ls_dot(y, x), is_inc_h_dot(y, x), is_inc_v_dot(y, x),
                        is_hori_dot(y, x), is_vert_dot(y, x), is_vbl_dot(y, x), is_clear_dot(y, x),
                        render_line(y))
                    && #[trigger] sprite_step(p2, m2, *final(self), *final(memory), sprite_rendering,
                        background_rendering,
                        is_eval_dot(y, x), is_end_eval_dot(y, x), is_sprite_ls_dot(y, x),
                        is_oam_clear_dot(y, x), x, y)
            }),
    {
        let ei = self.event_index;
        assert(ei < FRAME_DOTS && self.events@.len() == FRAME_DOTS
            && self.events@[ei as int] == event_of_index(ei as int)) by {
            reveal(Ppu2::wf);
        }
        let event = self.events[ei];
        let dot_x = (ei % WIDTH) as u16;
        let dot_scanline = (ei / WIDTH) as u16;
        assert(dot_x as int == ei as int % WIDTH as int && dot_scanline as int == ei as int / WIDTH as int
            && dot_scanline < 262 && dot_x < 341) by (nonlinear_arith)
            requires
                ei < 89342,
                dot_x == (ei % 341) as u16,
                dot_scanline == (ei / 341) as u16,
                WIDTH == 341;
        proof {
            lemma_event_at_bits(dot_scanline as int, dot_x as int);
            lemma_dot_events_exclusive(dot_scanline as int, dot_x as int);
            assert(event == event_at(dot_scanline as int, dot_x as int));
        }
        let frame_start = dot_scanline == 0 && dot_x == 0;
        let frame_end = dot_scanline == 240 && dot_x == 0;
        let rendering_enabled = background_rendering || sprite_rendering;

        self.tick_front(sprite_rendering, background_rendering, memory, dot_x, dot_scanline);
        let ghost p1 = *self;
        let ghost m1 = *memory;
        self.tick_back(sprite_rendering, background_rendering, memory, (event & NT) != 0, (event & AT) != 0,
            (event & BG_LSBITS) != 0, (event & INC_HORIZ_V) != 0, (event & INC_VERT_V) != 0,
            (event & HORI_V_EQUALS_HORI_T) != 0, (event & VERT_V_EQUALS_VERT_T) != 0,
            (event & SET_VBLANK_FLAG) != 0, (event & CLEAR_FLAGS) != 0,
            dot_scanline < 240 || dot_scanline == 261);
        let ghost p2 = *self;
        let ghost m2 = *memory;
        self.sprite_dot(sprite_rendering, background_rendering, memory, (event & SPRITE_EVALUATION) != 0,
            (event & END_SPRITE_EVALUATION) != 0, (event & SPRITE_LS_BITS) != 0,
            (event & SECONDARY_OAM_CLEAR) != 0, dot_x, dot_scanline);
        proof {
            let y = dot_scanline as int;
            let x = dot_x as int;
            assert(front_step(*old(self), *old(memory), p1, m1, sprite_rendering, background_rendering, x, y));
            assert(background_step(p1, m1, p2, m2, sprite_rendering, background_rendering, is_nt_dot(y, x),
                is_at_dot(y, x), is_bg_ls_dot(y, x), is_inc_h_dot(y, x), is_inc_v_dot(y, x),
                is_hori_dot(y, x), is_vert_dot(y, x), is_vbl_dot(y, x), is_clear_dot(y, x), render_line(y)));
            assert(sprite_step(p2, m2, *self, *memory, sprite_rendering, background_rendering,
                is_eval_dot(y, x), is_end_eval_dot(y, x), is_sprite_ls_dot(y, x), is_oam_clear_dot(y, x), x, y));
        }
        PpuResult { vbl: (event & SET_VBLANK_FLAG) != 0, frame_start, frame_end, irq_requested: false }
    }

    /// The first half of a dot: its start, the move of the beam, the pixel and the
    /// background shifters.
    #[verifier::rlimit(60)]
    fn tick_front(&mut self, sprite_rendering: bool, background_rendering: bool, memory: &mut NesMemory,
        dot_x: u16, dot_scanline: u16)
        requires
            old(self).wf(),
            old(memory).wf(),
            queue_can_step(*old(self)),
            dot_x as int == old(self).event_index as int % WIDTH as int,
            dot_scanline as int == old(self).event_index as int / WIDTH as int,
            dot_scanline < 262,
        ensures
            final(self).wf(),
            final(memory).wf(),
            front_step(*old(self), *old(memory), *final(self), *final(memory), sprite_rendering,
                background_rendering, dot_x as int, dot_scanline as int),
    {
        let rendering_enabled = background_rendering || sprite_rendering;
        self.begin_dot(memory, dot_x, dot_scanline);
        self.advance_beam(rendering_enabled);
        self.render_dot(sprite_rendering, background_rendering, memory, dot_x, dot_scanline);
    }

    /// The background work of a dot: fetches, scroll updates and status flags.
    #[verifier::rlimit(60)]
    fn tick_back(&mut self, sprite_rendering: bool, background_rendering: bool, memory: &mut NesMemory, nt: bool, at: bool,
        ls: bool, inc_h: bool, inc_v: bool, hori: bool, vert: bool, vbl: bool, clear_flags: bool,
        render_line: bool)
        requires
            old(self).wf(),
            old(memory).wf(),
        ensures
            final(self).wf(),
            final(memory).wf(),
            final(memory).mapper.config.mirroring == old(memory).mapper.config.mirroring,
            final(memory).mapper.config.is_custom_nametable == old(memory).mapper.config.is_custom_nametable,
            final(memory).mapper.chr_ram == old(memory).mapper.chr_ram,
            final(memory).mapper.prg_rom == old(memory).mapper.prg_rom,
            final(memory).mapper.wram == old(memory).mapper.wram,
            final(memory).mapper.vram == old(memory).mapper.vram,
            final(memory).mapper.vram_a == old(memory).mapper.vram_a,
            final(memory).mapper.vram_b == old(memory).mapper.vram_b,
            background_step(*old(self), *old(memory), *final(self), *final(memory), sprite_rendering,
                background_rendering, nt, at, ls, inc_h, inc_v, hori, vert, vbl, clear_flags, render_line),
    {
        self.background_dot(sprite_rendering || background_rendering, memory, nt, at, ls, inc_h, inc_v,
            hori, vert, render_line);
        Self::status_dot(memory, vbl, clear_flags);
    }

    /// The start of a dot: PPUMASK enable delays count down, the beam position is recorded,
    /// and a pending sprite 0 hit counts down, raising the flag when it runs out.
    fn begin_dot(&mut self, memory: &mut NesMemory, dot_x: u16, dot_scanline: u16)
        requires
            old(self).wf(),
            old(memory).wf(),
        ensures
            final(self).wf(),
            final(memory).wf(),
            *final(self) == (Ppu2 {
                x: dot_x,
                scanline: dot_scanline,
                sprite_0_hit_delay: hit_delay_counted(old(self).sprite_0_hit_delay),
                ..*old(self)
            }),
            final(memory).ppu_mask == old(memory).ppu_mask.ticked(),
            final(memory).memory@ == old(memory).memory@.update(0x2002, status_after(
                old(memory).memory@[0x2002],
                old(self).sprite_0_hit_delay == 0 || old(self).sprite_0_hit_delay == 1,
                false, false, false)),
            *final(memory) == (NesMemory {
                memory: final(memory).memory,
                ppu_mask: final(memory).ppu_mask,
                ..*old(memory)
            }),
    {
        proof {
            reveal(Ppu2::wf);
        }
        proof {
            reveal(status_after);
        }
        memory.ppu_mask.tick();
        self.x = dot_x;
        self.scanline = dot_scanline;
        if self.sprite_0_hit_delay > 0 {
            self.sprite_0_hit_delay = self.sprite_0_hit_delay - 1;
        }
        if self.sprite_0_hit_delay == 0 {
            memory.set_bit(0x2002, BIT_SPRITE_0_HIT);
            self.sprite_0_hit_delay = -1;
        } else {
            assert(old(memory).memory@.update(0x2002, old(memory).memory@[0x2002]) =~= old(memory).memory@);
        }
    }

    /// The pixel of a visible dot, then the background shifters of the fetch windows.
    fn render_dot(&mut self, sprite_rendering: bool, background_rendering: bool, memory: &NesMemory,
        dot_x: u16, dot_scanline: u16)
        requires
            old(self).wf(),
            queue_can_step(*old(self)),
            dot_scanline < 262,
        ensures
            final(self).wf(),
            ({
                let visible = dot_scanline < 240 && dot_x < 256;
                let fx = if visible && dot_x == 0 { memory.ir.x } else { old(self).fine_x_latched };
                let (color, hit) = pixel_of(bg_index_of(fx, old(self).pattern_shift_low,
                    old(self).pattern_shift_high, old(self).attr_shift_low, old(self).attr_shift_high),
                    old(self).palette_table@, old(self).sprite_latches@, sprite_rendering,
                    background_rendering, memory.ppu_mask.clip_sprites, memory.ppu_mask.clip_background,
                    dot_x as int, dot_scanline as int);
                let index = dot_scanline * 256 + dot_x;
                let (out, q) = queue_after(old(self).delayed_pixels.elements@,
                    old(self).delayed_pixels.delay, old(self).delayed_pixels.current_time,
                    (index as usize, color));
                let sh = bg_shift_on(background_rendering, dot_scanline as int, dot_x as int);
                &&& *final(self) == (Ppu2 {
                    fine_x_latched: fx,
                    sprite_0_hit_delay: if visible && hit && old(self).sprite_0_hit_delay == -1 { 3 }
                        else { old(self).sprite_0_hit_delay },
                    delayed_pixels: if visible { final(self).delayed_pixels } else { old(self).delayed_pixels },
                    screen: if visible { final(self).screen } else { old(self).screen },
                    pattern_shift_low: shifted(old(self).pattern_shift_low, sh),
                    pattern_shift_high: shifted(old(self).pattern_shift_high, sh),
                    attr_shift_low: shifted(old(self).attr_shift_low, sh),
                    attr_shift_high: shifted(old(self).attr_shift_high, sh),
                    ..*old(self)
                })
                &&& visible ==> {
                    &&& final(self).delayed_pixels.elements@ == q
                    &&& final(self).delayed_pixels.delay == old(self).delayed_pixels.delay
                    &&& final(self).delayed_pixels.current_time == old(self).delayed_pixels.current_time + 1
                    &&& final(self).screen@ == match out {
                        Some((i, c)) => old(self).screen@.update(i as int, c),
                        None => old(self).screen@,
                    }
                }
            }),
    {
        proof {
            reveal(Ppu2::wf);
        }
        if dot_scanline < 240 && dot_x < 256 {
            let fine_x = memory.ir.x;
            self.emit_pixel(sprite_rendering, background_rendering, &memory.ppu_mask, fine_x, dot_x,
                dot_scanline);
        }
        // The background shifters run on the visible fetch dots and the prefetch dots only.
        let render_line = dot_scanline < 240 || dot_scanline == 261;
        let bg_shift_active = background_rendering && render_line
            && ((1 <= dot_x && dot_x <= 256) || (321 <= dot_x && dot_x < 337));
        if bg_shift_active {
            self.shift_background();
        }
    }

    /// Background fetches, then (while rendering on a visible or pre-render line) the
    /// shifter reload and the scroll updates.
    fn background_dot(&mut self, rendering_enabled: bool, memory: &mut NesMemory, nt: bool, at: bool,
        ls: bool, inc_h: bool, inc_v: bool, hori: bool, vert: bool, render_line: bool)
        requires
            old(self).wf(),
            old(memory).wf(),
        ensures
            final(self).wf(),
            final(memory).wf(),
            final(memory).ir == (if rendering_enabled && render_line {
                IR { v: scroll_v(old(memory).ir.v, old(memory).ir.t, inc_h, inc_v, hori, vert), ..old(memory).ir }
            } else {
                old(memory).ir
            }),
            *final(memory) == (NesMemory {
                ir: final(memory).ir,
                mapper: final(memory).mapper,
                ..*old(memory)
            }),
            final(memory).mapper.config.mirroring == old(memory).mapper.config.mirroring,
            final(memory).mapper.config.is_custom_nametable == old(memory).mapper.config.is_custom_nametable,
            final(memory).mapper.prg_rom == old(memory).mapper.prg_rom,
            final(memory).mapper.wram == old(memory).mapper.wram,
            final(memory).mapper.chr_ram == old(memory).mapper.chr_ram,
            final(memory).mapper.vram == old(memory).mapper.vram,
            final(memory).mapper.vram_a == old(memory).mapper.vram_a,
            final(memory).mapper.vram_b == old(memory).mapper.vram_b,
            ({
                let reload = rendering_enabled && render_line && inc_h;
                let v = old(memory).ir.v;
                let bt = old(memory).ppu_ctrl.background_table;
                &&& *final(self) == (Ppu2 {
                    tile_index: final(self).tile_index,
                    palette: final(self).palette,
                    pt_lsb: final(self).pt_lsb,
                    pt_msb: final(self).pt_msb,
                    pattern_shift_low: reloaded_pattern(old(self).pattern_shift_low, final(self).pt_lsb, reload),
                    pattern_shift_high: reloaded_pattern(old(self).pattern_shift_high, final(self).pt_msb, reload),
                    attr_shift_low: reloaded_attr(old(self).attr_shift_low, final(self).palette & 1 != 0, reload),
                    attr_shift_high: reloaded_attr(old(self).attr_shift_high, final(self).palette & 2 != 0, reload),
                    ..*old(self)
                })
                &&& !nt ==> final(self).tile_index == old(self).tile_index
                &&& !at ==> final(self).palette == old(self).palette
                &&& !ls ==> final(self).pt_lsb == old(self).pt_lsb && final(self).pt_msb == old(self).pt_msb
                &&& Self::plain_board(old(memory).mapper) ==> {
                    &&& final(memory).mapper == old(memory).mapper
                    &&& nt ==> final(self).tile_index == vram_byte_of(old(self).palette_table@, old(memory).mapper, nt_address(v))
                    &&& at ==> final(self).palette == (vram_byte_of(old(self).palette_table@, old(memory).mapper, at_address(v))
                        >> at_shift(v)) & 3
                    &&& ls ==> final(self).pt_lsb == vram_byte_of(old(self).palette_table@, old(memory).mapper,
                            pattern_address(bt, final(self).tile_index, v))
                        && final(self).pt_msb == vram_byte_of(old(self).palette_table@, old(memory).mapper,
                            (pattern_address(bt, final(self).tile_index, v) + 8) as usize)
                }
            }),
    {
        proof {
            reveal(Ppu2::wf);
        }
        let v = memory.ir.v;
        let background_table = memory.ppu_ctrl.background_table;
        self.fetch_background(nt, at, ls, v, background_table, &mut memory.mapper);
        // Scroll registers move only while rendering on visible and pre-render lines.
        if rendering_enabled && render_line {
            if inc_h {
                self.reload_shifters();
            }
            Self::scroll_step(&mut memory.ir, inc_h, inc_v, hori, vert);
        }
    }

    /// The status flags of a dot: VBL raised at the start of vertical blank, all three
    /// flags cleared on the pre-render line.
    fn status_dot(memory: &mut NesMemory, vbl: bool, clear: bool)
        requires
            old(memory).wf(),
        ensures
            final(memory).wf(),
            final(memory).memory@ == old(memory).memory@.update(0x2002, status_after(
                old(memory).memory@[0x2002], false, vbl, clear, false)),
            *final(memory) == (NesMemory { memory: final(memory).memory, ..*old(memory) }),
    {
        proof {
            reveal(status_after);
        }
        if vbl {
            memory.set_bit(0x2002, BIT_VBL);
        }
        if clear {
            memory.clear_bit(0x2002, BIT_VBL);
            memory.clear_bit(0x2002, BIT_SPRITE_0_HIT);
            memory.clear_bit(0x2002, BIT_SPRITE_OVERFLOW);
        }
        assert(memory.memory@ =~= old(memory).memory@.update(0x2002, status_after(
            old(memory).memory@[0x2002], false, vbl, clear, false)));
    }

    /// The sprite work of a dot: evaluation, the end of evaluation, fetches and the
    /// clearing of secondary OAM.
    fn sprite_dot(&mut self, sprite_rendering: bool, background_rendering: bool, memory: &mut NesMemory, eval: bool, end: bool,
        fetch: bool, clear: bool, dot_x: u16, dot_scanline: u16)
        requires
            old(self).wf(),
            old(memory).wf(),
            dot_scanline < 262,
            !(eval && (end || fetch || clear)),
            !(end && (fetch || clear)),
            !(fetch && clear),
        ensures
            final(self).wf(),
            final(memory).wf(),
            *final(memory) == (NesMemory {
                memory: final(memory).memory,
                mapper: final(memory).mapper,
                ..*old(memory)
            }),
            final(memory).mapper.config.mirroring == old(memory).mapper.config.mirroring,
            final(memory).mapper.config.is_custom_nametable == old(memory).mapper.config.is_custom_nametable,
            final(memory).mapper.chr_ram == old(memory).mapper.chr_ram,
            final(memory).mapper.prg_rom == old(memory).mapper.prg_rom,
            final(memory).mapper.wram == old(memory).mapper.wram,
            final(memory).mapper.vram == old(memory).mapper.vram,
            final(memory).mapper.vram_a == old(memory).mapper.vram_a,
            final(memory).mapper.vram_b == old(memory).mapper.vram_b,
            sprite_step(*old(self), *old(memory), *final(self), *final(memory), sprite_rendering,
                background_rendering, eval, end, fetch, clear, dot_x as int, dot_scanline as int),
    {
        let rendering_enabled = sprite_rendering || background_rendering;
        proof {
            reveal(Ppu2::wf);
        }
        if rendering_enabled && eval {
            self.evaluate_sprite(memory, dot_x, dot_scanline);
        }
        if end {
            // Secondary OAM now holds the sprites of the next line: the latches of this
            // line are dropped and refilled by the fetches of dots 261..320.
            self.sprite_latches = Vec::new();
            self.sprite_fetch_index = 0;
        }
        if rendering_enabled && fetch {
            self.fetch_sprite(memory, dot_scanline);
        }
        if clear {
            self.clear_secondary_oam();
        }
    }
}

impl Default for Ppu2 {
    fn default() -> (r: Self)
        ensures
            r.wf(),
            r.event_index == 0,
            !r.odd_frame,
            r.sprite_0_hit_delay == -1,
            r.delayed_pixels.delay == 4,
            r.delayed_pixels.current_time == 0,
            r.delayed_pixels.elements@.len() == 0,
            r.oam2_eval_index == 0,
    {
        let mut mapper = MapperBase::default();
        Self::new(&mut mapper)
    }
}

/// How one dot moves the beam, as `Ppu2::tick` states it: to the next dot, or
/// after the last dot of a frame to dot 0 or dot 1 of the next frame.
pub open spec fn next_dot(p: Ppu2, q: Ppu2) -> bool {
    if p.event_index + 1 == FRAME_DOTS {
        q.event_index <= 1
    } else {
        q.event_index == p.event_index + 1
    }
}

/// The dot of a frame at which its picture is complete: dot 0 of scanline 240.
pub open spec fn picture_end_index() -> int {
    240 * WIDTH as int
}

proof fn lemma_dots_climb(h: Seq<Ppu2>, start: int, k: int)
    requires
        0 <= start,
        0 <= k,
        start + k < h.len(),
        forall|i: int| 0 <= i < h.len() - 1 ==> #[trigger] next_dot(h[i], h[i + 1]),
        h[start].event_index + k < FRAME_DOTS,
    ensures
        h[start + k].event_index == h[start].event_index + k,
    decreases k,
{
    if k > 0 {
        lemma_dots_climb(h, start, k - 1);
        let i = start + k - 1;
        assert(next_dot(h[i], h[i + 1]));
    }
}

/// The frame period: between two consecutive ends of the picture the PPU runs
/// 89,342 dots, or one fewer when the frame in between skipped its first dot.
pub proof fn lemma_frame_period(h: Seq<Ppu2>)
    requires
        h.len() >= 2,
        forall|i: int| 0 <= i < h.len() - 1 ==> #[trigger] next_dot(h[i], h[i + 1]),
        h[0].event_index == picture_end_index(),
        h.last().event_index == picture_end_index(),
        forall|i: int| 0 < i < h.len() - 1 ==> #[trigger] h[i].event_index != picture_end_index(),
    ensures
        h.len() - 1 == FRAME_DOTS || h.len() - 1 == FRAME_DOTS - 1,
{
    let n = h.len() - 1;
    let tail = FRAME_DOTS - 1 - picture_end_index();
    if n <= tail {
        lemma_dots_climb(h, 0, n);
        assert(false);
    }
    lemma_dots_climb(h, 0, tail);
    assert(next_dot(h[tail], h[tail + 1]));
    let s = h[tail + 1].event_index as int;
    let t = tail + 1 + picture_end_index() - s;
    if n < t {
        lemma_dots_climb(h, tail + 1, n - tail - 1);
        assert(false);
    }
    if n > t {
        lemma_dots_climb(h, tail + 1, t - tail - 1);
        assert(h[t].event_index == picture_end_index());
        assert(false);
    }
}

} // verus!
