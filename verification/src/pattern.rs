//! An 8x8 tile of 2-bit color indices.
use vstd::prelude::*;
use crate::text::push_char;

verus! {

#[derive(Clone, Copy)]
pub struct Pattern {
    bytes: [u8; 64],
}

/// `.` for color 0, `#` for the others.
pub open spec fn pixel_char(color: u8) -> char {
    if color == 0 {
        '.'
    } else {
        '#'
    }
}

/// Row `y` of the tile as text: one character per pixel and a newline.
pub open spec fn row_text(pixels: Seq<u8>, y: int) -> Seq<char> {
    Seq::new(8, |x: int| pixel_char(pixels[y * 8 + x])).push('\n')
}

/// The first `n` rows of the tile as text.
pub open spec fn rows_text(pixels: Seq<u8>, n: nat) -> Seq<char>
    decreases n,
{
    if n == 0 {
        seq![]
    } else {
        rows_text(pixels, (n - 1) as nat) + row_text(pixels, n - 1)
    }
}

impl Pattern {
    /// The 64 color indices, row by row.
    pub closed spec fn pixels(&self) -> Seq<u8> {
        self.bytes@
    }

    pub fn new(bytes: [u8; 64]) -> (r: Pattern)
        ensures
            r.pixels() == bytes@,
    {
        Self { bytes }
    }

    /// Every pixel has color 0.
    pub fn is_empty(&self) -> (r: bool)
        ensures
            r == forall|i: int| 0 <= i < 64 ==> self.pixels()[i] == 0,
    {
        let mut i: usize = 0;
        while i < 64
            invariant
                i <= 64,
                self.bytes@.len() == 64,
                forall|j: int| 0 <= j < i ==> self.bytes@[j] == 0,
            decreases 64 - i,
        {
            if self.bytes[i] != 0 {
                assert(self.pixels()[i as int] != 0);
                return false;
            }
            i = i + 1;
        }
        true
    }

    /// The color index of pixel `index`.
    pub fn index(&self, index: usize) -> (r: u8)
        requires
            index < 64,
        ensures
            r == self.pixels()[index as int],
    {
        self.bytes[index]
    }

    /// The tile as eight lines of `.` (color 0) and `#` (other colors).
    pub fn to_text(&self) -> (r: String)
        ensures
            r@ == rows_text(self.pixels(), 8),
    {
        let mut result = String::new();
        let mut y: usize = 0;
        while y < 8
            invariant
                y <= 8,
                self.bytes@.len() == 64,
                result@ == rows_text(self.bytes@, y as nat),
            decreases 8 - y,
        {
            let mut x: usize = 0;
            while x < 8
                invariant
                    y < 8,
                    x <= 8,
                    self.bytes@.len() == 64,
                    result@ == rows_text(self.bytes@, y as nat) + Seq::new(
                        x as nat,
                        |i: int| pixel_char(self.bytes@[y * 8 + i]),
                    ),
                decreases 8 - x,
            {
                let color = self.bytes[y * 8 + x];
                if color == 0 {
                    push_char(&mut result, '.');
                } else {
                    push_char(&mut result, '#');
                }
                assert(Seq::new((x + 1) as nat, |i: int| pixel_char(self.bytes@[y * 8 + i]))
                    =~= Seq::new(x as nat, |i: int| pixel_char(self.bytes@[y * 8 + i])).push(
                    pixel_char(color),
                ));
                x = x + 1;
            }
            push_char(&mut result, '\n');
            assert(rows_text(self.bytes@, (y + 1) as nat) =~= rows_text(self.bytes@, y as nat)
                + row_text(self.bytes@, y as int));
            y = y + 1;
        }
        result
    }
}

} // verus!
