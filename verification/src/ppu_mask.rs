use vstd::prelude::*;
use crate::text::{bool_text, push_bool, push_text};

verus! {

/// How many PPU dots before a rendering-enable takes effect.
/// Disabling rendering is immediate; enabling is delayed.
pub const BG_RENDER_DELAY: u8 = 3;

pub const SPRITE_RENDER_DELAY: u8 = 4;

/// PPUMASK ($2001)
/// 7  bit  0
/// ---- ----
/// BGRs bMmG
/// |||| ||||
/// |||| |||+- Greyscale (0: normal color, 1: greyscale)
/// |||| ||+-- 1: Show background in leftmost 8 pixels of screen, 0: Hide
/// |||| |+--- 1: Show sprites in leftmost 8 pixels of screen, 0: Hide
/// |||| +---- 1: Enable background rendering
/// |||+------ 1: Enable sprite rendering
/// ||+------- Emphasize red
/// |+-------- Emphasize green
/// +--------- Emphasize blue
#[derive(Clone, Copy)]
pub struct PpuMask {
    pub emphasize_blue: bool,
    pub emphasize_green: bool,
    pub emphasize_red: bool,
    /// The effective rendering state, what the PPU is using right now.
    pub sprite_rendering_effective: bool,
    pub background_rendering_effective: bool,
    /// Pending change: (target value, dots remaining).
    pub sprite_rendering_pending: Option<(bool, u8)>,
    pub background_rendering_pending: Option<(bool, u8)>,
    pub clip_sprites: bool,
    pub clip_background: bool,
    pub greyscale: bool,
}

/// A pending change after one dot: `None` once the count reaches zero.
pub open spec fn pending_after_dot(p: Option<(bool, u8)>) -> Option<(bool, u8)> {
    match p {
        Some((target, dots)) => if dots <= 1 { None } else { Some((target, (dots - 1) as u8)) },
        None => None,
    }
}

/// The effective value after one dot.
pub open spec fn effective_after_dot(effective: bool, p: Option<(bool, u8)>) -> bool {
    match p {
        Some((target, dots)) => if dots <= 1 { target } else { effective },
        None => effective,
    }
}

impl PpuMask {
    /// A PpuMask that takes effect immediately (initialisation / reset).
    pub fn new(value: u8) -> (r: Self)
        ensures
            r.emphasize_blue == (value & 0x80 != 0),
            r.emphasize_green == (value & 0x40 != 0),
            r.emphasize_red == (value & 0x20 != 0),
            r.sprite_rendering_effective == (value & 0x10 != 0),
            r.background_rendering_effective == (value & 0x08 != 0),
            r.sprite_rendering_pending is None,
            r.background_rendering_pending is None,
            r.clip_sprites == (value & 0x04 == 0),
            r.clip_background == (value & 0x02 == 0),
            r.greyscale == (value & 0x01 != 0),
    {
        Self {
            emphasize_blue: 0 != (value & 0x80),
            emphasize_green: 0 != (value & 0x40),
            emphasize_red: 0 != (value & 0x20),
            sprite_rendering_effective: 0 != (value & 0x10),
            background_rendering_effective: 0 != (value & 0x08),
            sprite_rendering_pending: None,
            background_rendering_pending: None,
            clip_sprites: 0 == (value & 0x04),
            clip_background: 0 == (value & 0x02),
            greyscale: 0 != (value & 0x01),
        }
    }

    /// Applies a CPU write to $2001. Non-rendering bits take effect immediately;
    /// enabling rendering is deferred by 3 (background) / 4 (sprites) dots, while
    /// disabling it is immediate.
    pub fn from_write(&mut self, value: u8)
        ensures
            final(self).emphasize_blue == (value & 0x80 != 0),
            final(self).emphasize_green == (value & 0x40 != 0),
            final(self).emphasize_red == (value & 0x20 != 0),
            final(self).clip_sprites == (value & 0x04 == 0),
            final(self).clip_background == (value & 0x02 == 0),
            final(self).greyscale == (value & 0x01 != 0),
            // background
            (value & 0x08 != 0) == old(self).background_rendering_effective ==> (
                final(self).background_rendering_effective == old(self).background_rendering_effective
                && final(self).background_rendering_pending == old(self).background_rendering_pending),
            (value & 0x08 != 0) && !old(self).background_rendering_effective ==> (
                !final(self).background_rendering_effective
                && final(self).background_rendering_pending == Some((true, BG_RENDER_DELAY))),
            (value & 0x08 == 0) && old(self).background_rendering_effective ==> (
                !final(self).background_rendering_effective
                && final(self).background_rendering_pending is None),
            // sprites
            (value & 0x10 != 0) == old(self).sprite_rendering_effective ==> (
                final(self).sprite_rendering_effective == old(self).sprite_rendering_effective
                && final(self).sprite_rendering_pending == old(self).sprite_rendering_pending),
            (value & 0x10 != 0) && !old(self).sprite_rendering_effective ==> (
                !final(self).sprite_rendering_effective
                && final(self).sprite_rendering_pending == Some((true, SPRITE_RENDER_DELAY))),
            (value & 0x10 == 0) && old(self).sprite_rendering_effective ==> (
                !final(self).sprite_rendering_effective
                && final(self).sprite_rendering_pending is None),
    {
        self.emphasize_blue = 0 != (value & 0x80);
        self.emphasize_green = 0 != (value & 0x40);
        self.emphasize_red = 0 != (value & 0x20);
        self.clip_sprites = 0 == (value & 0x04);
        self.clip_background = 0 == (value & 0x02);
        self.greyscale = 0 != (value & 0x01);

        let new_bg = 0 != (value & 0x08);
        let new_sprite = 0 != (value & 0x10);

        if new_bg != self.background_rendering_effective {
            if new_bg {
                self.background_rendering_pending = Some((new_bg, BG_RENDER_DELAY));
            } else {
                self.background_rendering_effective = false;
                self.background_rendering_pending = None;
            }
        }
        if new_sprite != self.sprite_rendering_effective {
            if new_sprite {
                self.sprite_rendering_pending = Some((new_sprite, SPRITE_RENDER_DELAY));
            } else {
                self.sprite_rendering_effective = false;
                self.sprite_rendering_pending = None;
            }
        }
    }

    /// Called once per PPU dot to advance the pending-change counters.
    /// Decrement first, then apply: a delay of N takes effect exactly N dots
    /// after the $2001 write.
    pub fn tick(&mut self)
        ensures
            *final(self) == old(self).ticked(),
            final(self).background_rendering_effective == effective_after_dot(
                old(self).background_rendering_effective, old(self).background_rendering_pending),
            final(self).background_rendering_pending == pending_after_dot(
                old(self).background_rendering_pending),
            final(self).sprite_rendering_effective == effective_after_dot(
                old(self).sprite_rendering_effective, old(self).sprite_rendering_pending),
            final(self).sprite_rendering_pending == pending_after_dot(
                old(self).sprite_rendering_pending),
            final(self).emphasize_blue == old(self).emphasize_blue,
            final(self).emphasize_green == old(self).emphasize_green,
            final(self).emphasize_red == old(self).emphasize_red,
            final(self).clip_sprites == old(self).clip_sprites,
            final(self).clip_background == old(self).clip_background,
            final(self).greyscale == old(self).greyscale,
    {
        if let Some((target, dots)) = self.background_rendering_pending {
            if dots <= 1 {
                self.background_rendering_effective = target;
                self.background_rendering_pending = None;
            } else {
                self.background_rendering_pending = Some((target, dots - 1));
            }
        }
        if let Some((target, dots)) = self.sprite_rendering_pending {
            if dots <= 1 {
                self.sprite_rendering_effective = target;
                self.sprite_rendering_pending = None;
            } else {
                self.sprite_rendering_pending = Some((target, dots - 1));
            }
        }
    }

    pub fn background_rendering(&self) -> (r: bool)
        ensures
            r == self.background_rendering_effective,
    {
        self.background_rendering_effective
    }

    pub fn sprite_rendering(&self) -> (r: bool)
        ensures
            r == self.sprite_rendering_effective,
    {
        self.sprite_rendering_effective
    }

    pub fn greyscale(&self) -> (r: bool)
        ensures
            r == self.greyscale,
    {
        self.greyscale
    }
}

impl Default for PpuMask {
    fn default() -> (r: Self)
        ensures
            r == PpuMask::new_spec(0),
    {
        Self::new(0)
    }
}

impl PpuMask {
    /// The mask one dot later: each pending enable counts down and takes effect at zero.
    pub open spec fn ticked(self) -> PpuMask {
        PpuMask {
            background_rendering_effective: effective_after_dot(self.background_rendering_effective,
                self.background_rendering_pending),
            background_rendering_pending: pending_after_dot(self.background_rendering_pending),
            sprite_rendering_effective: effective_after_dot(self.sprite_rendering_effective,
                self.sprite_rendering_pending),
            sprite_rendering_pending: pending_after_dot(self.sprite_rendering_pending),
            ..self
        }
    }

    /// The mask that `new(value)` builds.
    pub open spec fn new_spec(value: u8) -> PpuMask {
        PpuMask {
            emphasize_blue: value & 0x80 != 0,
            emphasize_green: value & 0x40 != 0,
            emphasize_red: value & 0x20 != 0,
            sprite_rendering_effective: value & 0x10 != 0,
            background_rendering_effective: value & 0x08 != 0,
            sprite_rendering_pending: None,
            background_rendering_pending: None,
            clip_sprites: value & 0x04 == 0,
            clip_background: value & 0x02 == 0,
            greyscale: value & 0x01 != 0,
        }
    }
}

/// How PPUMASK prints: the emphasis bits, the effective rendering flags, the
/// two clipping flags and greyscale.
pub open spec fn ppu_mask_text(m: PpuMask) -> Seq<char> {
    "b:"@ + bool_text(m.emphasize_blue) + " g:"@ + bool_text(m.emphasize_green) + " r:"@ + bool_text(
        m.emphasize_red,
    ) + " sprite:"@ + bool_text(m.sprite_rendering_effective) + " background:"@ + bool_text(
        m.background_rendering_effective,
    ) + " show_sprites:"@ + bool_text(m.clip_sprites) + " show_bg:"@ + bool_text(m.clip_background)
        + " greyscale:"@ + bool_text(m.greyscale)
}

impl PpuMask {
    /// The register as text (see `ppu_mask_text`).
    pub fn to_string(&self) -> (r: String)
        ensures
            r@ == ppu_mask_text(*self),
    {
        let mut s = String::new();
        push_text(&mut s, "b:");
        push_bool(&mut s, self.emphasize_blue);
        push_text(&mut s, " g:");
        push_bool(&mut s, self.emphasize_green);
        push_text(&mut s, " r:");
        push_bool(&mut s, self.emphasize_red);
        push_text(&mut s, " sprite:");
        push_bool(&mut s, self.sprite_rendering());
        push_text(&mut s, " background:");
        push_bool(&mut s, self.background_rendering());
        push_text(&mut s, " show_sprites:");
        push_bool(&mut s, self.clip_sprites);
        push_text(&mut s, " show_bg:");
        push_bool(&mut s, self.clip_background);
        push_text(&mut s, " greyscale:");
        push_bool(&mut s, self.greyscale);
        s
    }
}

/// Law: a byte written to PPUMASK, bit by bit: bit 0 greyscale, bit 1 shows the background
/// in the leftmost 8 pixels (no clipping) and bit 2 the sprites there, bit 3 renders the
/// background and bit 4 the sprites, bits 5-7 emphasise red, green and blue; no rendering
/// change is pending.
pub proof fn lemma_ppu_mask_bits(value: u8)
    ensures
        ({
            let m = PpuMask::new_spec(value);
            &&& m.greyscale == (value % 2 == 1)
            &&& m.clip_background == ((value / 2) % 2 == 0)
            &&& m.clip_sprites == ((value / 4) % 2 == 0)
            &&& m.background_rendering_effective == ((value / 8) % 2 == 1)
            &&& m.sprite_rendering_effective == ((value / 16) % 2 == 1)
            &&& m.emphasize_red == ((value / 32) % 2 == 1)
            &&& m.emphasize_green == ((value / 64) % 2 == 1)
            &&& m.emphasize_blue == (value >= 128)
            &&& m.background_rendering_pending is None && m.sprite_rendering_pending is None
        }),
{
    crate::bit_facts::lemma_u8_fields();
    assert(value & 1 == value % 2 && value & 2 == 2 * ((value / 2) % 2) && value & 4 == 4 * ((value / 4) % 2)
        && value & 8 == 8 * ((value / 8) % 2) && value & 0x10 == 16 * ((value / 16) % 2)
        && value & 0x20 == 32 * ((value / 32) % 2) && value & 0x40 == 64 * ((value / 64) % 2)
        && value & 0x80 == 128 * (value / 128));
}

} // verus!
