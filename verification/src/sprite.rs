//! An 8x8 sprite read from its OAM entry and its pattern bytes.
use vstd::prelude::*;
use crate::text::{digit_char, push_char};

verus! {

pub struct Sprite<'a> {
    x: u8,
    y: u8,
    flip_x: bool,
    flip_y: bool,
    attribute: u8,
    tile_index: u8,
    /// Should actually be 16 for 8x8 sprites, 32 for 8x16 sprites
    bytes: &'a Vec<u8>,
}

/// Bit `k` of `b`.
pub open spec fn bit_of(b: u8, k: u8) -> u8 {
    (b >> k) & 1
}

/// The color index of pixel (`x`, `y`) of an 8x8 tile whose two bit
/// planes are `pattern[0..8]` (low bit) and `pattern[8..16]` (high bit),
/// bit 7 being the leftmost pixel.
pub open spec fn tile_color(pattern: Seq<u8>, x: u8, y: u8) -> u8 {
    (bit_of(pattern[y + 8], (7 - x) as u8) << 1u8) | bit_of(pattern[y as int], (7 - x) as u8)
}

impl<'a> Sprite<'a> {
    /// The sprite's flips: attribute bits 6 (horizontal) and 7 (vertical).
    pub closed spec fn flips(&self) -> (bool, bool) {
        (self.flip_x, self.flip_y)
    }

    /// The pattern bytes.
    pub closed spec fn pattern(&self) -> Seq<u8> {
        self.bytes@
    }

    /// The OAM fields: x, y, attribute and tile index.
    pub closed spec fn fields(&self) -> (u8, u8, u8, u8) {
        (self.x, self.y, self.attribute, self.tile_index)
    }

    /// The sprite of OAM entry `a` (y, tile, attribute, x) drawn with `bytes`.
    pub fn new(a: &[u8; 4], bytes: &'a Vec<u8>) -> (r: Sprite<'a>)
        ensures
            r.fields() == (a@[3], a@[0], a@[2], a@[1]),
            r.flips() == (a@[2] & 0x40 != 0, a@[2] & 0x80 != 0),
            r.pattern() == bytes@,
    {
        Sprite {
            y: a[0],
            x: a[3],
            flip_y: a[2] & 0x80 != 0,
            flip_x: a[2] & 0x40 != 0,
            tile_index: a[1],
            attribute: a[2],
            bytes,
        }
    }

    /// The color index of pixel (`x`, `y`), the flips applied.
    pub fn color_index(&self, x: u8, y: u8) -> (r: u8)
        requires
            x < 8,
            y < 8,
            self.pattern().len() >= 16,
        ensures
            r == tile_color(
                self.pattern(),
                if self.flips().0 {
                    (7 - x) as u8
                } else {
                    x
                },
                if self.flips().1 {
                    (7 - y) as u8
                } else {
                    y
                },
            ),
    {
        let x = if self.flip_x {
            7 - x
        } else {
            x
        };
        let y = if self.flip_y {
            7 - y
        } else {
            y
        };
        let bit_index = 7 - x;
        let bit1 = (self.bytes[y as usize] >> bit_index) & 1;
        let bit2 = (self.bytes[y as usize + 8] >> bit_index) & 1;
        (bit2 << 1) | bit1
    }
}

/// A tile color is two bits.
proof fn lemma_color_bound(low: u8, high: u8, k: u8)
    by (bit_vector)
    ensures
        (((high >> k) & 1) << 1u8) | ((low >> k) & 1) <= 3,
{
}

/// A pixel as a sprite dump shows it: `.` for color 0, else the color's digit.
pub open spec fn pixel_char(c: u8) -> char {
    if c == 0 {
        '.'
    } else {
        digit_char(c as nat)
    }
}

impl<'a> Sprite<'a> {
    /// The color of pixel (`x`, `y`) as the sprite is drawn, flips applied.
    pub open spec fn drawn(&self, x: u8, y: u8) -> u8 {
        tile_color(
            self.pattern(),
            if self.flips().0 {
                (7 - x) as u8
            } else {
                x
            },
            if self.flips().1 {
                (7 - y) as u8
            } else {
                y
            },
        )
    }

    /// Row `y` of the dump: its eight pixels and a line break.
    pub open spec fn row_text(&self, y: u8) -> Seq<char> {
        Seq::new(8, |x: int| pixel_char(self.drawn(x as u8, y))) + seq!['\n']
    }

    /// The first `n` rows of the dump.
    pub open spec fn rows_text(&self, n: nat) -> Seq<char>
        decreases n,
    {
        if n == 0 {
            seq![]
        } else {
            self.rows_text((n - 1) as nat) + self.row_text((n - 1) as u8)
        }
    }

    /// The sprite as text: eight rows of pixels, then an empty line.
    pub fn display(&self) -> (r: String)
        requires
            self.pattern().len() >= 16,
        ensures
            r@ == self.rows_text(8) + seq!['\n'],
    {
        let mut s = String::new();
        let mut y: u8 = 0;
        while y < 8
            invariant
                y <= 8,
                self.pattern().len() >= 16,
                s@ == self.rows_text(y as nat),
            decreases 8 - y,
        {
            let ghost base = s@;
            let mut x: u8 = 0;
            while x < 8
                invariant
                    x <= 8,
                    y < 8,
                    self.pattern().len() >= 16,
                    s@ == base + Seq::new(x as nat, |i: int| pixel_char(self.drawn(i as u8, y))),
                decreases 8 - x,
            {
                let c = self.color_index(x, y);
                let ghost p = self.pattern();
                let ghost fx = if self.flips().0 { (7 - x) as u8 } else { x };
                let ghost fy = if self.flips().1 { (7 - y) as u8 } else { y };
                proof {
                    lemma_color_bound(p[fy as int], p[fy + 8], (7 - fx) as u8);
                }
                if c == 0 {
                    push_char(&mut s, '.');
                } else {
                    push_char(&mut s, (0x30 + c) as char);
                }
                assert(Seq::new((x + 1) as nat, |i: int| pixel_char(self.drawn(i as u8, y))) =~= Seq::new(
                    x as nat,
                    |i: int| pixel_char(self.drawn(i as u8, y)),
                ).push(pixel_char(self.drawn(x, y))));
                x = x + 1;
            }
            push_char(&mut s, '\n');
            assert(s@ =~= self.rows_text((y + 1) as nat));
            y = y + 1;
        }
        push_char(&mut s, '\n');
        s
    }
}

/// A tile whose only set bits are bit 7 of bytes 0 and 8 has color 3 at
/// (0, 0) and color 0 elsewhere.
proof fn lemma_corner_tile(pattern: Seq<u8>, x: u8, y: u8)
    requires
        pattern.len() == 16,
        pattern[0] == 0x80,
        pattern[8] == 0x80,
        forall|i: int| 0 <= i < 16 && i != 0 && i != 8 ==> pattern[i] == 0,
        x < 8,
        y < 8,
    ensures
        tile_color(pattern, x, y) == if x == 0 && y == 0 {
            3u8
        } else {
            0u8
        },
{
    let k = (7 - x) as u8;
    assert(k < 8);
    assert(((0x80u8 >> k) & 1) == (if k == 7 {
        1u8
    } else {
        0u8
    })) by (bit_vector)
        requires
            k < 8,
    ;
    crate::bit_facts::lemma_u8_fields();
    assert(((0u8 >> k) & 1) == 0u8);
    assert(((1u8 << 1u8) | 1u8) == 3u8 && ((0u8 << 1u8) | 0u8) == 0u8);
}

/// Checks every pixel of a sprite against the one pixel of color 3 it
/// should have.
fn verify(sprite: &Sprite, expected_x: u8, expected_y: u8)
    requires
        sprite.pattern().len() == 16,
        sprite.pattern()[0] == 0x80,
        sprite.pattern()[8] == 0x80,
        forall|i: int| 0 <= i < 16 && i != 0 && i != 8 ==> sprite.pattern()[i] == 0,
        expected_x == (if sprite.flips().0 {
            7u8
        } else {
            0u8
        }),
        expected_y == (if sprite.flips().1 {
            7u8
        } else {
            0u8
        }),
{
    let mut y: u8 = 0;
    while y < 8
        invariant
            y <= 8,
            sprite.pattern().len() == 16,
            sprite.pattern()[0] == 0x80,
            sprite.pattern()[8] == 0x80,
            forall|i: int| 0 <= i < 16 && i != 0 && i != 8 ==> sprite.pattern()[i] == 0,
            expected_x == (if sprite.flips().0 {
                7u8
            } else {
                0u8
            }),
            expected_y == (if sprite.flips().1 {
                7u8
            } else {
                0u8
            }),
        decreases 8 - y,
    {
        let mut x: u8 = 0;
        while x < 8
            invariant
                x <= 8,
                y < 8,
                sprite.pattern().len() == 16,
                sprite.pattern()[0] == 0x80,
                sprite.pattern()[8] == 0x80,
                forall|i: int| 0 <= i < 16 && i != 0 && i != 8 ==> sprite.pattern()[i] == 0,
                expected_x == (if sprite.flips().0 {
                    7u8
                } else {
                    0u8
                }),
                expected_y == (if sprite.flips().1 {
                    7u8
                } else {
                    0u8
                }),
            decreases 8 - x,
        {
            let c = sprite.color_index(x, y);
            proof {
                let fx = if sprite.flips().0 {
                    (7 - x) as u8
                } else {
                    x
                };
                let fy = if sprite.flips().1 {
                    (7 - y) as u8
                } else {
                    y
                };
                lemma_corner_tile(sprite.pattern(), fx, fy);
                assert(c == if x == expected_x && y == expected_y {
                    3u8
                } else {
                    0u8
                });
            }
            x = x + 1;
        }
        y = y + 1;
    }
}

/// The sprite self-test: a tile with one pixel of color 3 in its corner,
/// drawn unflipped and flipped every way, has that pixel in the matching
/// corner and color 0 elsewhere.
pub fn test_sprites() {
    let attributes: [u8; 4] = [0, 0b0100_0000, 0b1000_0000, 0b1100_0000];
    let sprite_bytes: Vec<u8> = vec![0x80, 0, 0, 0, 0, 0, 0, 0, 0x80, 0, 0, 0, 0, 0, 0, 0];
    let mut i: usize = 0;
    while i < 4
        invariant
            i <= 4,
            sprite_bytes@ == seq![0x80u8, 0, 0, 0, 0, 0, 0, 0, 0x80, 0, 0, 0, 0, 0, 0, 0],
            attributes@ == seq![0u8, 0b0100_0000, 0b1000_0000, 0b1100_0000],
        decreases 4 - i,
    {
        let attribute = attributes[i];
        let sprite_spec: [u8; 4] = [0x70, 4, attribute, 0x79];
        let sprite = Sprite::new(&sprite_spec, &sprite_bytes);
        let expected_x: u8 = if attribute & 0x40 != 0 {
            7
        } else {
            0
        };
        let expected_y: u8 = if attribute & 0x80 != 0 {
            7
        } else {
            0
        };
        assert(forall|j: int|
            0 <= j < 16 && j != 0 && j != 8 ==> sprite.pattern()[j] == 0);
        verify(&sprite, expected_x, expected_y);
        i = i + 1;
    }
}

} // verus!
