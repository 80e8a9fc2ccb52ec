use vstd::prelude::*;
use crate::text::{
    binary, binary_digits, bool_text, decimal, grouped4, hex_word, push_bool, push_decimal,
    push_grouped4, push_hex_word, push_text,
};

verus! {

/// Coarse X scroll held in bits 0..4 of `v`.
pub open spec fn coarse_x_of(v: u16) -> u16 {
    v & 0x1f
}

/// Coarse Y scroll held in bits 5..9 of `v`.
pub open spec fn coarse_y_of(v: u16) -> u16 {
    (v >> 5u16) & 0x1f
}

/// Fine Y scroll held in bits 12..14 of `v`.
pub open spec fn fine_y_of(v: u16) -> u16 {
    (v & 0x7000) >> 12u16
}

/// Nametable select held in bits 10..11 of `v`.
pub open spec fn nametable_of(v: u16) -> u16 {
    (v & 0xc00) >> 10u16
}

/// The bits that `hori(v) = hori(t)` copies: coarse X and the horizontal nametable bit.
pub open spec fn hori_mask() -> u16 {
    0b000_01_00000_11111
}

/// The bits that `vert(v) = vert(t)` copies: fine Y, vertical nametable bit and coarse Y.
pub open spec fn vert_mask() -> u16 {
    0b111_10_11111_00000
}

/// `v` after the end-of-scanline Y increment: fine Y counts up, carrying into coarse Y,
/// which wraps from 29 to 0 switching the vertical nametable (from 31 to 0 without a
/// switch).
pub open spec fn vert_increment_of(v: u16) -> u16 {
    if v & 0x7000 != 0x7000 {
        (v + 0x1000) as u16
    } else {
        let v1 = v & !0x7000u16;
        let cy = (v >> 5u16) & 0x1f;
        if cy == 29 {
            (v1 & !0x3e0u16) ^ 0x800
        } else if cy == 31 {
            v1 & !0x3e0u16
        } else {
            (v1 & !0x3e0u16) | (((cy + 1) as u16) << 5u16)
        }
    }
}

/// The bit facts behind the Y increment.
proof fn lemma_vert_bits(v: u16, v1: u16, cy: u16, r: u16)
    by (bit_vector)
    requires
        v1 == v & !0x7000u16,
        cy == (v >> 5u16) & 0x1f,
        r == (if v & 0x7000 != 0x7000 { (v + 0x1000) as u16 } else if cy == 29 {
            (v1 & !0x3e0u16) ^ 0x800 } else if cy == 31 { v1 & !0x3e0u16 } else {
            (v1 & !0x3e0u16) | (((cy + 1) as u16) << 5u16) }),
    ensures
        v & 0x7000 != 0x7000 ==> v + 0x1000 <= 0xffff,
        (v >> 5u16) & 0x1f <= 31,
        (v & 0x7000) >> 12u16 < 7 ==> (r & 0x7000) >> 12u16 == ((v & 0x7000) >> 12u16) + 1
            && r & !0x7000u16 == v & !0x7000u16,
        (v & 0x7000) >> 12u16 == 7 ==> (r & 0x7000) >> 12u16 == 0,
        (v & 0x7000) >> 12u16 == 7 && (v >> 5u16) & 0x1f == 29 ==> (r >> 5u16) & 0x1f == 0 && r & 0x800 != v & 0x800,
        (v & 0x7000) >> 12u16 == 7 && (v >> 5u16) & 0x1f == 31 ==> (r >> 5u16) & 0x1f == 0 && r & 0x800 == v & 0x800,
        (v & 0x7000) >> 12u16 == 7 && (v >> 5u16) & 0x1f != 29 && (v >> 5u16) & 0x1f != 31 ==>
            (r >> 5u16) & 0x1f == ((v >> 5u16) & 0x1f) + 1 && r & 0x800 == v & 0x800,
        r & 0x1f == v & 0x1f,
        r & 0x400 == v & 0x400,
{
}

/// The Y increment moves fine Y and coarse Y as the hardware does, and keeps coarse X
/// and the horizontal nametable bit.
pub proof fn lemma_vert_increment(v: u16)
    ensures
        v & 0x7000 != 0x7000 ==> v + 0x1000 <= 0xffff,
        (v >> 5u16) & 0x1f <= 31,
        fine_y_of(v) < 7 ==> fine_y_of(vert_increment_of(v)) == fine_y_of(v) + 1
            && vert_increment_of(v) & !0x7000u16 == v & !0x7000u16,
        fine_y_of(v) == 7 ==> fine_y_of(vert_increment_of(v)) == 0,
        fine_y_of(v) == 7 && coarse_y_of(v) == 29 ==> coarse_y_of(vert_increment_of(v)) == 0
            && (vert_increment_of(v) & 0x800) != (v & 0x800),
        fine_y_of(v) == 7 && coarse_y_of(v) == 31 ==> coarse_y_of(vert_increment_of(v)) == 0
            && (vert_increment_of(v) & 0x800) == (v & 0x800),
        fine_y_of(v) == 7 && coarse_y_of(v) != 29 && coarse_y_of(v) != 31 ==>
            coarse_y_of(vert_increment_of(v)) == coarse_y_of(v) + 1
            && (vert_increment_of(v) & 0x800) == (v & 0x800),
        coarse_x_of(vert_increment_of(v)) == coarse_x_of(v),
        (vert_increment_of(v) & 0x400) == (v & 0x400),
{
    let r = vert_increment_of(v);
    let v1 = v & !0x7000u16;
    let cy = (v >> 5u16) & 0x1f;
    lemma_vert_bits(v, v1, cy, r);
}

/// The bit facts behind the field setters of the scroll registers.
proof fn lemma_ir_field_bits(v: u16, t: u16, n: u16)
    by (bit_vector)
    ensures
        n < 32 ==> ((v & !0x1fu16) | n) & 0x1f == n,
        n < 32 ==> ((v & !0x1fu16) | n) & !0x1fu16 == v & !0x1fu16,
        n < 32 ==> (((v & !0b11111_00000u16) | ((n << 5u16) as u16)) >> 5u16) & 0x1f == n,
        n < 32 ==> ((v & !0b11111_00000u16) | ((n << 5u16) as u16)) & !0b11111_00000u16
            == v & !0b11111_00000u16,
        n < 32 ==> ((n + 1) as u16) & 0b11111 == (n + 1) % 32,
        n < 8 ==> ((n + 1) as u16) & 0b111 == (n + 1) % 8,
        n < 8 ==> (((v & !0x7000u16) | ((n << 12u16) as u16)) & 0x7000) >> 12u16 == n,
        n < 8 ==> ((v & !0x7000u16) | ((n << 12u16) as u16)) & !0x7000u16 == v & !0x7000u16,
        ((v & !0b000_01_00000_11111u16) | (t & 0b000_01_00000_11111u16))
            & 0b000_01_00000_11111u16 == t & 0b000_01_00000_11111u16,
        ((v & !0b000_01_00000_11111u16) | (t & 0b000_01_00000_11111u16))
            & !0b000_01_00000_11111u16 == v & !0b000_01_00000_11111u16,
        ((v & !0b111_10_11111_00000u16) | (t & 0b111_10_11111_00000u16))
            & 0b111_10_11111_00000u16 == t & 0b111_10_11111_00000u16,
        ((v & !0b111_10_11111_00000u16) | (t & 0b111_10_11111_00000u16))
            & !0b111_10_11111_00000u16 == v & !0b111_10_11111_00000u16,
        (v & 0x800) >> 11u16 <= 1,
        (v >> 5u16) & 0x1f < 32,
        (v & 0x7000) >> 12u16 < 8,
        v & 0x1f < 32,
        (v & 0xc00) >> 10u16 < 4,
{
}

/// Internal registers
/// v and t have the following format:
/// yyy NN YYYYY XXXXX
/// ||| || ||||| +++++-- coarse X scroll
/// ||| || +++++-------- coarse Y scroll
/// ||| ++-------------- nametable select
/// +++----------------- fine Y scroll
#[derive(Copy, Clone, Default)]
pub struct IR {
    pub v: u16,
    pub t: u16,
    /// fine x, 3 bits
    pub x: u8,
    pub w: bool,
}

impl IR {
    pub fn v(&self) -> (r: u16)
        ensures
            r == self.v,
    {
        self.v
    }

    pub fn set_v(&mut self, v: u16)
        ensures
            *final(self) == (IR { v, ..*old(self) }),
    {
        self.v = v;
    }

    pub fn set_t(&mut self, v: u16)
        ensures
            *final(self) == (IR { t: v, ..*old(self) }),
    {
        self.t = v;
    }

    /// Replaces the coarse X bits of `v` with `x`.
    pub fn set_coarse_x(&mut self, x: u16)
        ensures
            final(self).v == (old(self).v & !0x1fu16) | x,
            final(self).t == old(self).t,
            final(self).x == old(self).x,
            final(self).w == old(self).w,
            x < 32 ==> coarse_x_of(final(self).v) == x,
            x < 32 ==> final(self).v & !0x1fu16 == old(self).v & !0x1fu16,
    {
        let ghost v = self.v;
        proof {
            lemma_ir_field_bits(v, 0, x);
        }
        self.v = (self.v & !0x1F) | x;
    }

    /// Replaces the coarse Y bits of `v` with `y`.
    pub fn set_coarse_y(&mut self, y: u16)
        ensures
            final(self).v == (old(self).v & !0b11111_00000u16) | ((y << 5u16) as u16),
            final(self).t == old(self).t,
            final(self).x == old(self).x,
            final(self).w == old(self).w,
            y < 32 ==> coarse_y_of(final(self).v) == y,
            y < 32 ==> final(self).v & !0b11111_00000u16 == old(self).v & !0b11111_00000u16,
    {
        let ghost v = self.v;
        proof {
            lemma_ir_field_bits(v, 0, y);
        }
        let mask: u16 = 0b11111_00000;
        self.v = (self.v & !mask) | (y << 5u16);
    }

    /// Adds one to coarse X, wrapping from 31 to 0; no other bit changes.
    pub fn increment_coarse_x(&mut self)
        ensures
            coarse_x_of(final(self).v) == (coarse_x_of(old(self).v) + 1) % 32,
            final(self).v & !0x1fu16 == old(self).v & !0x1fu16,
            final(self).t == old(self).t,
            final(self).x == old(self).x,
            final(self).w == old(self).w,
    {
        let cx = self.coarse_x();
        proof {
            lemma_ir_field_bits(0, 0, cx);
        }
        self.set_coarse_x((cx + 1) & 0b11111);
    }

    /// Adds one to coarse Y, wrapping from 31 to 0; no other bit changes.
    pub fn increment_coarse_y(&mut self)
        ensures
            coarse_y_of(final(self).v) == (coarse_y_of(old(self).v) + 1) % 32,
            final(self).v & !0b11111_00000u16 == old(self).v & !0b11111_00000u16,
            final(self).t == old(self).t,
            final(self).x == old(self).x,
            final(self).w == old(self).w,
    {
        let cy = self.coarse_y();
        proof {
            lemma_ir_field_bits(0, 0, cy);
        }
        self.set_coarse_y((cy + 1) & 0b11111);
    }

    /// Adds one to fine Y, wrapping from 7 to 0; no other bit changes.
    pub fn increment_fine_y(&mut self)
        ensures
            fine_y_of(final(self).v) == (fine_y_of(old(self).v) + 1) % 8,
            final(self).v & !0x7000u16 == old(self).v & !0x7000u16,
            final(self).t == old(self).t,
            final(self).x == old(self).x,
            final(self).w == old(self).w,
    {
        let fy = self.fine_y();
        proof {
            lemma_ir_field_bits(0, 0, fy);
        }
        self.set_fine_y((fy + 1) & 0b111);
    }

    /// Replaces the fine Y bits of `v` with `y`.
    pub fn set_fine_y(&mut self, y: u16)
        ensures
            final(self).v == (old(self).v & !0x7000u16) | ((y << 12u16) as u16),
            final(self).t == old(self).t,
            final(self).x == old(self).x,
            final(self).w == old(self).w,
            y < 8 ==> fine_y_of(final(self).v) == y,
            y < 8 ==> final(self).v & !0x7000u16 == old(self).v & !0x7000u16,
    {
        let ghost v = self.v;
        proof {
            lemma_ir_field_bits(v, 0, y);
        }
        let mask: u16 = 0x7000;
        self.v = (self.v & !mask) | (y << 12u16);
    }

    pub fn horizontal_nametable(&self) -> (r: u16)
        ensures
            r == (self.v & 0x400) >> 10u16,
            r <= 1,
    {
        let v = self.v;
        proof {
            crate::bit_facts::lemma_u16_masks();
            assert((v & 0x400) >> 10u16 <= 1);
        }
        (self.v & 0x400) >> 10u16
    }

    /// Flips the horizontal nametable bit (bit 10) of `v`.
    pub fn switch_horizontal_nametable(&mut self)
        ensures
            final(self).v == old(self).v ^ 0x0400,
            final(self).t == old(self).t,
            final(self).x == old(self).x,
            final(self).w == old(self).w,
    {
        self.v = self.v ^ 0x0400;
    }

    pub fn vertical_nametable(&self) -> (r: u16)
        ensures
            r == (self.v & 0x800) >> 11u16,
            r <= 1,
    {
        let v = self.v;
        proof {
            lemma_ir_field_bits(v, 0, 0);
        }
        (self.v & 0x800) >> 11u16
    }

    /// Flips the vertical nametable bit (bit 11) of `v`.
    pub fn switch_vertical_nametable(&mut self)
        ensures
            final(self).v == old(self).v ^ 0x0800,
            final(self).t == old(self).t,
            final(self).x == old(self).x,
            final(self).w == old(self).w,
    {
        self.v = self.v ^ 0x0800;
    }

    /// hori(v) = hori(t): copies coarse X and the horizontal nametable bit from `t`.
    pub fn hori_v_equals_hori_t(&mut self)
        ensures
            final(self).v == (old(self).v & !hori_mask()) | (old(self).t & hori_mask()),
            final(self).v & hori_mask() == old(self).t & hori_mask(),
            final(self).v & !hori_mask() == old(self).v & !hori_mask(),
            final(self).t == old(self).t,
            final(self).x == old(self).x,
            final(self).w == old(self).w,
    {
        let ghost (v, t) = (self.v, self.t);
        proof {
            lemma_ir_field_bits(v, t, 0);
        }
        let mask: u16 = 0b000_01_00000_11111;
        self.v = (self.v & !mask) | (self.t & mask);
    }

    /// vert(v) = vert(t): copies fine Y, the vertical nametable bit and coarse Y from `t`.
    pub fn vert_v_equals_vert_t(&mut self)
        ensures
            final(self).v == (old(self).v & !vert_mask()) | (old(self).t & vert_mask()),
            final(self).v & vert_mask() == old(self).t & vert_mask(),
            final(self).v & !vert_mask() == old(self).v & !vert_mask(),
            final(self).t == old(self).t,
            final(self).x == old(self).x,
            final(self).w == old(self).w,
    {
        let ghost (v, t) = (self.v, self.t);
        proof {
            lemma_ir_field_bits(v, t, 0);
        }
        let mask: u16 = 0b111_10_11111_00000;
        self.v = (self.v & !mask) | (self.t & mask);
    }

    /// Adds `inc` to `v`, keeping the 14-bit VRAM address.
    pub fn increment_v(&mut self, inc: u16)
        ensures
            final(self).v == ((old(self).v + inc) % 0x10000) % 0x4000,
            final(self).t == old(self).t,
            final(self).x == old(self).x,
            final(self).w == old(self).w,
    {
        let s = self.v.wrapping_add(inc);
        proof {
            crate::bit_facts::lemma_u16_masks();
            assert(s & 0x3fff == s % 0x4000);
        }
        self.v = s & 0x3fff;
    }

    /// v <- t
    pub fn set_v_to_t(&mut self)
        ensures
            *final(self) == (IR { v: old(self).t, ..*old(self) }),
    {
        self.v = self.t;
    }

    /// Increments fine Y, carrying into coarse Y (rows 0..29) and toggling the vertical
    /// nametable when coarse Y wraps from 29; coarse Y 31 wraps to 0 without a toggle.
    pub fn increment_vert_v(&mut self)
        ensures
            *final(self) == (IR { v: vert_increment_of(old(self).v), ..*old(self) }),
            fine_y_of(old(self).v) < 7 ==> fine_y_of(final(self).v) == fine_y_of(old(self).v) + 1
                && final(self).v & !0x7000u16 == old(self).v & !0x7000u16,
            fine_y_of(old(self).v) == 7 ==> fine_y_of(final(self).v) == 0,
            fine_y_of(old(self).v) == 7 && coarse_y_of(old(self).v) == 29 ==>
                coarse_y_of(final(self).v) == 0
                && (final(self).v & 0x800) != (old(self).v & 0x800),
            fine_y_of(old(self).v) == 7 && coarse_y_of(old(self).v) == 31 ==>
                coarse_y_of(final(self).v) == 0
                && (final(self).v & 0x800) == (old(self).v & 0x800),
            fine_y_of(old(self).v) == 7 && coarse_y_of(old(self).v) != 29
                && coarse_y_of(old(self).v) != 31 ==>
                coarse_y_of(final(self).v) == coarse_y_of(old(self).v) + 1
                && (final(self).v & 0x800) == (old(self).v & 0x800),
            coarse_x_of(final(self).v) == coarse_x_of(old(self).v),
            (final(self).v & 0x400) == (old(self).v & 0x400),
            final(self).t == old(self).t,
            final(self).x == old(self).x,
            final(self).w == old(self).w,
    {
        let v = self.v;
        proof {
            lemma_vert_increment(v);
        }
        if v & 0x7000 != 0x7000 {
            self.v = v + 0x1000;
        } else {
            let v1 = v & !0x7000u16;
            let cy = (v >> 5u16) & 0x1f;
            if cy == 29 {
                self.v = (v1 & !0x3e0u16) ^ 0x800;
            } else if cy == 31 {
                self.v = v1 & !0x3e0u16;
            } else {
                self.v = (v1 & !0x3e0u16) | ((cy + 1) << 5u16);
            }
        }
    }

    pub fn coarse_y(&self) -> (r: u16)
        ensures
            r == coarse_y_of(self.v),
            r < 32,
    {
        let v = self.v;
        proof {
            lemma_ir_field_bits(v, 0, 0);
        }
        (self.v >> 5u16) & 0b1_1111
    }

    pub fn fine_y(&self) -> (r: u16)
        ensures
            r == fine_y_of(self.v),
            r < 8,
    {
        let v = self.v;
        proof {
            lemma_ir_field_bits(v, 0, 0);
        }
        (self.v & 0b111_00_00000_00000) >> 12u16
    }

    pub fn coarse_x(&self) -> (r: u16)
        ensures
            r == coarse_x_of(self.v),
            r < 32,
    {
        let v = self.v;
        proof {
            lemma_ir_field_bits(v, 0, 0);
        }
        self.v & 0b1_1111
    }

    pub fn fine_x(&self) -> (r: u16)
        ensures
            r == self.x as u16,
    {
        self.x as u16
    }

    pub fn nametable(&self) -> (r: u16)
        ensures
            r == nametable_of(self.v),
            r < 4,
    {
        let v = self.v;
        proof {
            lemma_ir_field_bits(v, 0, 0);
        }
        (self.v & 0b11_00000_00000) >> 10u16
    }
}

/// How the registers print: `v` and `t` in hexadecimal and grouped binary,
/// `w`, and the nametable, coarse X, fine X, coarse Y and fine Y fields in
/// decimal.
pub open spec fn ir_text(ir: IR) -> Seq<char> {
    "IR: v:"@ + hex_word(ir.v) + "/"@ + grouped4(binary(ir.v as nat)) + " t:"@ + hex_word(ir.t) + "/"@
        + grouped4(binary(ir.t as nat)) + " w:"@ + bool_text(ir.w) + " NT:"@ + decimal(
        nametable_of(ir.v) as nat,
    ) + " coarse_x:"@ + decimal(coarse_x_of(ir.v) as nat) + " fine_x:"@ + decimal(ir.x as nat)
        + " coarse_y:"@ + decimal(coarse_y_of(ir.v) as nat) + " fine_y:"@ + decimal(
        fine_y_of(ir.v) as nat,
    )
}

impl IR {
    /// `n` in binary, with `_` between groups of four digits from the right.
    pub fn format_binary_with_underscores(n: u16) -> (r: String)
        ensures
            r@ == grouped4(binary(n as nat)),
    {
        let digits = binary_digits(n);
        let mut s = String::new();
        push_grouped4(&mut s, &digits);
        assert(s@ =~= grouped4(binary(n as nat)));
        s
    }

    /// The registers as text (see `ir_text`).
    pub fn to_string(&self) -> (r: String)
        ensures
            r@ == ir_text(*self),
    {
        let mut s = String::new();
        push_text(&mut s, "IR: v:");
        push_hex_word(&mut s, self.v);
        push_text(&mut s, "/");
        let b = Self::format_binary_with_underscores(self.v);
        push_text(&mut s, b.as_str());
        push_text(&mut s, " t:");
        push_hex_word(&mut s, self.t);
        push_text(&mut s, "/");
        let b = Self::format_binary_with_underscores(self.t);
        push_text(&mut s, b.as_str());
        push_text(&mut s, " w:");
        push_bool(&mut s, self.w);
        push_text(&mut s, " NT:");
        push_decimal(&mut s, self.nametable() as u128);
        push_text(&mut s, " coarse_x:");
        push_decimal(&mut s, self.coarse_x() as u128);
        push_text(&mut s, " fine_x:");
        push_decimal(&mut s, self.fine_x() as u128);
        push_text(&mut s, " coarse_y:");
        push_decimal(&mut s, self.coarse_y() as u128);
        push_text(&mut s, " fine_y:");
        push_decimal(&mut s, self.fine_y() as u128);
        s
    }
}

} // verus!
