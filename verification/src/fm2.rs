//! FCEUX `.fm2` movies: a text header and one `|`-delimited line per frame.
use vstd::prelude::*;
use vstd::utf8::encode_utf8;
use crate::rom::Rom;
use crate::text::{
    chars_of, eq_ignore_ascii_case, equal_ignoring_ascii_case, has_prefix, line_ranges, lines_of,
    pieces, push_char, range_has_prefix, range_texts, split_ranges, string_of, trim_range, trimmed,
};

verus! {

/// The buttons of the first controller in one frame.
#[derive(Debug, Default, Clone, Copy, PartialEq, Eq, Structural)]
pub struct ControllerState {
    pub right: bool,
    pub left: bool,
    pub down: bool,
    pub up: bool,
    pub start: bool,
    pub select: bool,
    pub b: bool,
    pub a: bool,
}

/// `word`, followed by a space, where `on` holds; nothing otherwise.
pub open spec fn word_if(on: bool, word: Seq<char>) -> Seq<char> {
    if on {
        word.push(' ')
    } else {
        seq![]
    }
}

/// The text of a controller state: the names of the pressed buttons, each
/// followed by a space.
pub open spec fn state_text(s: ControllerState) -> Seq<char> {
    word_if(s.right, seq!['R', 'i', 'g', 'h', 't']) + word_if(s.left, seq!['L', 'e', 'f', 't'])
        + word_if(s.down, seq!['D', 'o', 'w', 'n']) + word_if(s.up, seq!['U', 'p']) + word_if(
        s.start,
        seq!['S', 't', 'a', 'r', 't'],
    ) + word_if(s.select, seq!['S', 'e', 'l', 'e', 'c', 't']) + word_if(s.b, seq!['B'])
        + word_if(s.a, seq!['A'])
}

fn push_word(s: &mut String, on: bool, word: &Vec<char>)
    ensures
        final(s)@ == old(s)@ + word_if(on, word@),
{
    if on {
        let mut i: usize = 0;
        while i < word.len()
            invariant
                i <= word.len(),
                s@ == old(s)@ + word@.subrange(0, i as int),
            decreases word.len() - i,
        {
            push_char(s, word[i]);
            assert(word@.subrange(0, i + 1) =~= word@.subrange(0, i as int).push(word@[i as int]));
            i = i + 1;
        }
        push_char(s, ' ');
        assert(word@.subrange(0, word.len() as int) =~= word@);
    }
    assert(old(s)@ + word_if(on, word@) =~= s@);
}

impl ControllerState {
    /// No button is pressed.
    pub fn _is_empty(&self) -> (r: bool)
        ensures
            r == (!self.right && !self.left && !self.down && !self.up && !self.start && !self.select
                && !self.b && !self.a),
    {
        !self.right && !self.left && !self.down && !self.up && !self.start && !self.select
            && !self.b && !self.a
    }

    /// The names of the pressed buttons, each followed by a space.
    pub fn to_string(&self) -> (r: String)
        ensures
            r@ == state_text(*self),
    {
        let mut s = String::new();
        push_word(&mut s, self.right, &vec!['R', 'i', 'g', 'h', 't']);
        push_word(&mut s, self.left, &vec!['L', 'e', 'f', 't']);
        push_word(&mut s, self.down, &vec!['D', 'o', 'w', 'n']);
        push_word(&mut s, self.up, &vec!['U', 'p']);
        push_word(&mut s, self.start, &vec!['S', 't', 'a', 'r', 't']);
        push_word(&mut s, self.select, &vec!['S', 'e', 'l', 'e', 'c', 't']);
        push_word(&mut s, self.b, &vec!['B']);
        push_word(&mut s, self.a, &vec!['A']);
        s
    }
}

/// Byte `i` of `bytes` exists and is `c`.
pub open spec fn byte_is(bytes: Seq<u8>, i: int, c: u8) -> bool {
    i < bytes.len() && bytes[i] == c
}

/// The controller state written in a button field, read byte by byte in
/// the order `RLDUTSBA`: a letter at its place means pressed.
pub open spec fn fm2_state(field: Seq<char>) -> ControllerState {
    let b = encode_utf8(field);
    ControllerState {
        right: byte_is(b, 0, 0x52),
        left: byte_is(b, 1, 0x4c),
        down: byte_is(b, 2, 0x44),
        up: byte_is(b, 3, 0x55),
        start: byte_is(b, 4, 0x54),
        select: byte_is(b, 5, 0x53),
        b: byte_is(b, 6, 0x42),
        a: byte_is(b, 7, 0x41),
    }
}

/// The frame a line describes: a line that starts with `|` and has a third
/// `|`-separated field gives the state written in that field.
pub open spec fn fm2_frame(line: Seq<char>) -> Option<ControllerState> {
    if line.len() > 0 && line[0] == '|' && pieces(line, '|').len() >= 3 {
        Some(fm2_state(pieces(line, '|')[2]))
    } else {
        None
    }
}

/// The key of the checksum line.
pub open spec fn checksum_key() -> Seq<char> {
    seq!['r', 'o', 'm', 'C', 'h', 'e', 'c', 'k', 's', 'u', 'm']
}

/// The line that marks a PAL movie begins with this.
pub open spec fn pal_key() -> Seq<char> {
    seq!['p', 'a', 'l', 'F', 'l', 'a', 'g', ' ', '1']
}

/// The frames described by `lines`, in order.
pub open spec fn fm2_frames(lines: Seq<Seq<char>>) -> Seq<ControllerState>
    decreases lines.len(),
{
    if lines.len() == 0 {
        seq![]
    } else {
        let earlier = fm2_frames(lines.drop_last());
        let line = lines.last();
        if !has_prefix(line, checksum_key()) && !has_prefix(line, pal_key()) && fm2_frame(
            line,
        ) is Some {
            earlier.push(fm2_frame(line)->0)
        } else {
            earlier
        }
    }
}

/// The checksum given by the last checksum line of `lines`, trimmed; empty
/// where there is none.
pub open spec fn fm2_checksum(lines: Seq<Seq<char>>) -> Seq<char>
    decreases lines.len(),
{
    if lines.len() == 0 {
        seq![]
    } else if has_prefix(lines.last(), checksum_key()) {
        trimmed(lines.last().subrange(checksum_key().len() as int, lines.last().len() as int))
    } else {
        fm2_checksum(lines.drop_last())
    }
}

/// Some line of `lines` marks the movie as PAL.
pub open spec fn fm2_pal(lines: Seq<Seq<char>>) -> bool
    decreases lines.len(),
{
    if lines.len() == 0 {
        false
    } else {
        fm2_pal(lines.drop_last()) || (!has_prefix(lines.last(), checksum_key()) && has_prefix(
            lines.last(),
            pal_key(),
        ))
    }
}

/// `str::trim`: the same text without leading and trailing whitespace.
#[verifier::external_body]
fn trim_str<'a>(s: &'a str) -> (r: &'a str)
    ensures
        r@ == trimmed(s@),
{
    s.trim()
}

/// A movie: the ROM checksum it was recorded with and its frames.
#[derive(Debug)]
pub struct Fm2Movie {
    pub rom_md5: String,
    pal: bool,
    frames: Vec<ControllerState>,
    _index: usize,
}

impl Fm2Movie {
    /// The frames of the movie.
    pub closed spec fn frame_list(&self) -> Seq<ControllerState> {
        self.frames@
    }

    /// The movie was recorded on a PAL machine.
    pub closed spec fn is_pal(&self) -> bool {
        self.pal
    }

    /// The checksum text as it was read.
    pub closed spec fn checksum_text(&self) -> Seq<char> {
        self.rom_md5@
    }

    /// The number of frames handed out so far.
    pub closed spec fn position(&self) -> nat {
        self._index as nat
    }

    /// Hands out the next frame, or `None` once every frame was handed out.
    pub fn _next_state(&mut self) -> (r: Option<ControllerState>)
        ensures
            old(self).position() >= old(self).frame_list().len() ==> r is None && *final(self)
                == *old(self),
            old(self).position() < old(self).frame_list().len() ==> r == Some(
                old(self).frame_list()[old(self).position() as int],
            ) && final(self).position() == old(self).position() + 1 && final(self).frame_list()
                == old(self).frame_list() && final(self).is_pal() == old(self).is_pal()
                && final(self).checksum_text() == old(self).checksum_text(),
    {
        if self._index >= self.frames.len() {
            None
        } else {
            let result = self.frames[self._index];
            self._index = self._index + 1;
            Some(result)
        }
    }

    /// The checksum of the ROM the movie was recorded with, trimmed; `None`
    /// where the movie gives none.
    pub fn rom_checksum(&self) -> (r: Option<&str>)
        ensures
            match r {
                Some(c) => c@ == trimmed(self.checksum_text()) && c@.len() > 0,
                None => trimmed(self.checksum_text()).len() == 0,
            },
    {
        let checksum = trim_str(self.rom_md5.as_str());
        if checksum.is_empty() {
            None
        } else {
            Some(checksum)
        }
    }

    /// Whether the movie's checksum is that of `rom`, ignoring ASCII case;
    /// `None` where the movie gives no checksum.
    pub fn rom_checksum_matches(&self, rom: &Rom) -> (r: Option<bool>)
        ensures
            r == if trimmed(self.checksum_text()).len() == 0 {
                None
            } else {
                Some(equal_ignoring_ascii_case(trimmed(self.checksum_text()), rom.checksum@))
            },
    {
        match self.rom_checksum() {
            Some(c) => Some(eq_ignore_ascii_case(c, rom.checksum.as_str())),
            None => None,
        }
    }

    /// Reads a movie from its text: the checksum line, the PAL flag and
    /// one frame per frame line; other lines are skipped.
    pub fn parse(input: &str) -> (r: Self)
        ensures
            r.checksum_text() == fm2_checksum(lines_of(input@)),
            r.is_pal() == fm2_pal(lines_of(input@)),
            r.frame_list() == fm2_frames(lines_of(input@)),
            r.position() == 0,
    {
        let v = chars_of(input);
        let lines = line_ranges(&v);
        let ghost l = lines_of(v@);
        let key = vec!['r', 'o', 'm', 'C', 'h', 'e', 'c', 'k', 's', 'u', 'm'];
        let pal = vec!['p', 'a', 'l', 'F', 'l', 'a', 'g', ' ', '1'];
        assert(key@ == checksum_key());
        assert(pal@ == pal_key());
        let mut movie = Fm2Movie { rom_md5: String::new(), pal: false, frames: Vec::new(), _index: 0 };
        let mut k: usize = 0;
        while k < lines.len()
            invariant
                v@ == input@,
                l == lines_of(v@),
                range_texts(v@, lines@) =~~= l,
                forall|j: int|
                    #![trigger lines@[j]]
                    0 <= j < lines.len() ==> lines@[j].0 <= lines@[j].1 && lines@[j].1 <= v.len(),
                key@ == checksum_key(),
                pal@ == pal_key(),
                k <= lines.len(),
                movie.rom_md5@ == fm2_checksum(l.take(k as int)),
                movie.pal == fm2_pal(l.take(k as int)),
                movie.frames@ == fm2_frames(l.take(k as int)),
                movie._index == 0,
            decreases lines.len() - k,
        {
            let (a, b) = lines[k];
            let ghost line = l[k as int];
            assert(range_texts(v@, lines@)[k as int] == line);
            assert(line == v@.subrange(a as int, b as int));
            assert(l.take(k + 1).drop_last() =~= l.take(k as int));
            assert(l.take(k + 1).last() == line);
            if range_has_prefix(&v, a, b, &key) {
                let (x, y) = trim_range(&v, a + 11, b);
                assert(line.subrange(11, line.len() as int) =~= v@.subrange(a + 11, b as int));
                movie.rom_md5 = string_of(&v, x, y);
            } else if range_has_prefix(&v, a, b, &pal) {
                movie.pal = true;
            } else if b > a && v[a] == '|' {
                let parts = split_ranges(&v, a, b, '|');
                if parts.len() >= 3 {
                    let (p, q) = parts[2];
                    assert(range_texts(v@, parts@)[2] == pieces(line, '|')[2]);
                    let field = string_of(&v, p, q);
                    let bytes = field.as_str().as_bytes();
                    let state = ControllerState {
                        right: bytes.len() > 0 && bytes[0] == 0x52,
                        left: bytes.len() > 1 && bytes[1] == 0x4c,
                        down: bytes.len() > 2 && bytes[2] == 0x44,
                        up: bytes.len() > 3 && bytes[3] == 0x55,
                        start: bytes.len() > 4 && bytes[4] == 0x54,
                        select: bytes.len() > 5 && bytes[5] == 0x53,
                        b: bytes.len() > 6 && bytes[6] == 0x42,
                        a: bytes.len() > 7 && bytes[7] == 0x41,
                    };
                    assert(state == fm2_state(pieces(line, '|')[2]));
                    movie.frames.push(state);
                }
            }
            k = k + 1;
        }
        assert(l.take(lines.len() as int) =~= l);
        movie
    }
}

} // verus!
