//! BizHawk `.bk2` movies: a header of `key value` lines and an input log
//! with one `|`-delimited line per frame.
use vstd::prelude::*;
use vstd::utf8::encode_utf8;
use crate::fm2::byte_is;
use crate::text::{
    chars_of, has_prefix, hex_value, line_ranges, lines_of, pieces, push_char, range_texts,
    split_ranges, string_of, trim_range, trimmed,
};

verus! {

/// The buttons of the first controller in one frame.
#[derive(Debug, Default, Clone, Copy, PartialEq, Eq, Structural)]
pub struct ControllerState {
    pub right: bool,
    pub left: bool,
    pub down: bool,
    pub up: bool,
    pub start: bool,
    pub select: bool,
    pub b: bool,
    pub a: bool,
}

/// `c` where `on` holds, nothing otherwise.
pub open spec fn letter_if(on: bool, c: char) -> Seq<char> {
    if on {
        seq![c]
    } else {
        seq![]
    }
}

/// The letters of the pressed buttons in the order `UDLRSsBA`, or `.`
/// where none is pressed.
pub open spec fn state_text(s: ControllerState) -> Seq<char> {
    let t = letter_if(s.up, 'U') + letter_if(s.down, 'D') + letter_if(s.left, 'L') + letter_if(
        s.right,
        'R',
    ) + letter_if(s.start, 'S') + letter_if(s.select, 's') + letter_if(s.b, 'B') + letter_if(
        s.a,
        'A',
    );
    if t.len() == 0 {
        seq!['.']
    } else {
        t
    }
}

fn push_letter(s: &mut String, on: bool, c: char)
    ensures
        final(s)@ == old(s)@ + letter_if(on, c),
{
    if on {
        push_char(s, c);
    }
    assert(old(s)@ + letter_if(on, c) =~= s@);
}

impl ControllerState {
    /// Returns `true` when no buttons are pressed.
    pub fn is_empty(&self) -> (r: bool)
        ensures
            r == (!self.right && !self.left && !self.down && !self.up && !self.start && !self.select
                && !self.b && !self.a),
    {
        !self.right && !self.left && !self.down && !self.up && !self.start && !self.select
            && !self.b && !self.a
    }

    /// The letters of the pressed buttons, or `.` where none is pressed.
    pub fn to_string(&self) -> (r: String)
        ensures
            r@ == state_text(*self),
    {
        let mut s = String::new();
        push_letter(&mut s, self.up, 'U');
        push_letter(&mut s, self.down, 'D');
        push_letter(&mut s, self.left, 'L');
        push_letter(&mut s, self.right, 'R');
        push_letter(&mut s, self.start, 'S');
        push_letter(&mut s, self.select, 's');
        push_letter(&mut s, self.b, 'B');
        push_letter(&mut s, self.a, 'A');
        if s.as_str().is_empty() {
            push_char(&mut s, '.');
        }
        s
    }
}

/// No key occurs twice in `es`.
pub open spec fn keys_unique(es: Seq<(String, String)>) -> bool {
    forall|i: int, j: int| 0 <= i < j < es.len() ==> #[trigger] es[i].0@ != #[trigger] es[j].0@
}

/// The keys of `es` and their values.
pub open spec fn entries_map(es: Seq<(String, String)>) -> Map<Seq<char>, Seq<char>> {
    Map::new(
        |k: Seq<char>| exists|i: int| 0 <= i < es.len() && es[i].0@ == k,
        |k: Seq<char>| es[choose|i: int| 0 <= i < es.len() && es[i].0@ == k].1@,
    )
}

/// The index of `key` in `es`, where it is present.
fn find(es: &Vec<(String, String)>, key: &String) -> (r: Option<usize>)
    ensures
        match r {
            Some(i) => i < es.len() && es@[i as int].0@ == key@,
            None => forall|i: int| 0 <= i < es.len() ==> es@[i].0@ != key@,
        },
{
    let mut i: usize = 0;
    while i < es.len()
        invariant
            i <= es.len(),
            forall|j: int| 0 <= j < i ==> es@[j].0@ != key@,
        decreases es.len() - i,
    {
        if es[i].0 == *key {
            return Some(i);
        }
        i = i + 1;
    }
    None
}

/// Replacing the entry of a present key sets that key in the map.
proof fn lemma_replace(es: Seq<(String, String)>, i: int, e: (String, String))
    requires
        keys_unique(es),
        0 <= i < es.len(),
        es[i].0@ == e.0@,
    ensures
        keys_unique(es.update(i, e)),
        entries_map(es.update(i, e)) == entries_map(es).insert(e.0@, e.1@),
{
    let ns = es.update(i, e);
    let before = entries_map(es);
    let after = entries_map(ns);
    let k = e.0@;
    assert forall|a: int, b: int| 0 <= a < b < ns.len() implies #[trigger] ns[a].0@
        != #[trigger] ns[b].0@ by {
        assert(es[a].0@ != es[b].0@);
    }
    assert forall|x: Seq<char>| #[trigger] after.contains_key(x) == before.insert(
        k,
        e.1@,
    ).contains_key(x) by {
        if x == k {
            assert(ns[i].0@ == x);
        } else if before.contains_key(x) {
            let j = choose|j: int| 0 <= j < es.len() && es[j].0@ == x;
            assert(ns[j].0@ == x);
        } else if after.contains_key(x) {
            let j = choose|j: int| 0 <= j < ns.len() && ns[j].0@ == x;
            assert(es[j].0@ == x);
        }
    }
    assert forall|x: Seq<char>| #[trigger] after.contains_key(x) implies after[x] == before.insert(
        k,
        e.1@,
    )[x] by {
        let j = choose|j: int| 0 <= j < ns.len() && ns[j].0@ == x;
        if x == k {
            assert(j == i);
        } else {
            assert(es[j].0@ == x);
            let j0 = choose|j0: int| 0 <= j0 < es.len() && es[j0].0@ == x;
            assert(j0 == j);
        }
    }
    assert(after =~= before.insert(k, e.1@));
}

/// Appending the entry of an absent key sets that key in the map.
proof fn lemma_append(es: Seq<(String, String)>, e: (String, String))
    requires
        keys_unique(es),
        forall|i: int| 0 <= i < es.len() ==> es[i].0@ != e.0@,
    ensures
        keys_unique(es.push(e)),
        entries_map(es.push(e)) == entries_map(es).insert(e.0@, e.1@),
{
    let ns = es.push(e);
    let n = es.len() as int;
    let before = entries_map(es);
    let after = entries_map(ns);
    let k = e.0@;
    assert forall|a: int, b: int| 0 <= a < b < ns.len() implies #[trigger] ns[a].0@
        != #[trigger] ns[b].0@ by {
        if b < n {
            assert(es[a].0@ != es[b].0@);
        }
    }
    assert forall|x: Seq<char>| #[trigger] after.contains_key(x) == before.insert(
        k,
        e.1@,
    ).contains_key(x) by {
        if x == k {
            assert(ns[n].0@ == x);
        } else if before.contains_key(x) {
            let j = choose|j: int| 0 <= j < es.len() && es[j].0@ == x;
            assert(ns[j].0@ == x);
        } else if after.contains_key(x) {
            let j = choose|j: int| 0 <= j < ns.len() && ns[j].0@ == x;
            assert(es[j].0@ == x);
        }
    }
    assert forall|x: Seq<char>| #[trigger] after.contains_key(x) implies after[x] == before.insert(
        k,
        e.1@,
    )[x] by {
        let j = choose|j: int| 0 <= j < ns.len() && ns[j].0@ == x;
        if x == k {
            assert(j == n);
        } else {
            assert(es[j].0@ == x);
            let j0 = choose|j0: int| 0 <= j0 < es.len() && es[j0].0@ == x;
            assert(j0 == j);
        }
    }
    assert(after =~= before.insert(k, e.1@));
}

/// Header keys and their values, each key once.
pub struct HeaderMap {
    entries: Vec<(String, String)>,
}

impl HeaderMap {
    #[verifier::type_invariant]
    spec fn unique(&self) -> bool {
        keys_unique(self.entries@)
    }

    /// The keys and their values.
    pub closed spec fn map(&self) -> Map<Seq<char>, Seq<char>> {
        entries_map(self.entries@)
    }

    /// No key yet.
    pub fn new() -> (r: Self)
        ensures
            r.map() == Map::<Seq<char>, Seq<char>>::empty(),
    {
        let r = HeaderMap { entries: Vec::new() };
        assert(r.map() =~= Map::<Seq<char>, Seq<char>>::empty());
        r
    }

    /// Sets the value of `key`, replacing the value it had.
    pub fn insert(&mut self, key: String, value: String)
        ensures
            final(self).map() == old(self).map().insert(key@, value@),
    {
        proof {
            use_type_invariant(&*self);
        }
        let mut entries: Vec<(String, String)> = Vec::new();
        std::mem::swap(&mut entries, &mut self.entries);
        let ghost es = entries@;
        match find(&entries, &key) {
            Some(i) => {
                proof {
                    lemma_replace(es, i as int, (key, value));
                }
                entries.set(i, (key, value));
            },
            None => {
                proof {
                    lemma_append(es, (key, value));
                }
                entries.push((key, value));
            },
        }
        self.entries = entries;
    }

    /// The value of `key`, where it is present.
    pub fn get(&self, key: &str) -> (r: Option<&String>)
        ensures
            match r {
                Some(v) => self.map().contains_key(key@) && v@ == self.map()[key@],
                None => !self.map().contains_key(key@),
            },
    {
        proof {
            use_type_invariant(self);
        }
        let k = key.to_owned();
        match find(&self.entries, &k) {
            Some(i) => {
                proof {
                    let j = choose|j: int|
                        0 <= j < self.entries.len() && self.entries@[j].0@ == key@;
                    assert(j == i);
                }
                Some(&self.entries[i].1)
            },
            None => None,
        }
    }
}

impl Default for HeaderMap {
    fn default() -> (r: Self)
        ensures
            r.map() == Map::<Seq<char>, Seq<char>>::empty(),
    {
        HeaderMap::new()
    }
}

/// The key and value of a header line: the trimmed line split at its first
/// space; `None` for a blank line, a `;` comment or a line without a space.
pub open spec fn header_entry(line: Seq<char>) -> Option<(Seq<char>, Seq<char>)> {
    let t = trimmed(line);
    let p = pieces(t, ' ');
    if t.len() == 0 || t[0] == ';' || p.len() < 2 {
        None
    } else {
        Some((p[0], t.subrange(p[0].len() + 1int, t.len() as int)))
    }
}

/// The headers set by `lines`, a later line for a key replacing an earlier one.
pub open spec fn header_map(lines: Seq<Seq<char>>) -> Map<Seq<char>, Seq<char>>
    decreases lines.len(),
{
    if lines.len() == 0 {
        Map::empty()
    } else {
        let earlier = header_map(lines.drop_last());
        match header_entry(lines.last()) {
            Some(e) => earlier.insert(e.0, e.1),
            None => earlier,
        }
    }
}

/// The controller state written in a button field, read byte by byte in
/// the order `UDLRSsBA`: a letter at its place means pressed.
pub open spec fn bk2_state(field: Seq<char>) -> ControllerState {
    let b = encode_utf8(field);
    ControllerState {
        up: byte_is(b, 0, 0x55),
        down: byte_is(b, 1, 0x44),
        left: byte_is(b, 2, 0x4c),
        right: byte_is(b, 3, 0x52),
        start: byte_is(b, 4, 0x53),
        select: byte_is(b, 5, 0x73),
        b: byte_is(b, 6, 0x42),
        a: byte_is(b, 7, 0x41),
    }
}

/// The frame a line of the input log describes: the trimmed line must start
/// with `|` and have a third `|`-separated field, the first player's buttons.
pub open spec fn bk2_frame(line: Seq<char>) -> Option<ControllerState> {
    let t = trimmed(line);
    if t.len() > 0 && t[0] == '|' && pieces(t, '|').len() >= 3 {
        Some(bk2_state(pieces(t, '|')[2]))
    } else {
        None
    }
}

/// The frames described by `lines`, in order.
pub open spec fn bk2_frames(lines: Seq<Seq<char>>) -> Seq<ControllerState>
    decreases lines.len(),
{
    if lines.len() == 0 {
        seq![]
    } else {
        let earlier = bk2_frames(lines.drop_last());
        match bk2_frame(lines.last()) {
            Some(s) => earlier.push(s),
            None => earlier,
        }
    }
}

#[verifier::external_type_specification]
#[verifier::external_body]
pub struct ExParseIntError(core::num::ParseIntError);

/// The `u32` that `s` writes in hexadecimal: an optional `+`, then at least
/// one hexadecimal digit and nothing else, with a value that fits.
pub open spec fn hex_u32(s: Seq<char>) -> Option<u32> {
    let d = if s.len() > 0 && s[0] == '+' {
        s.drop_first()
    } else {
        s
    };
    let v = hex_value(d);
    if d.len() > 0 && v is Some && v->0 <= 0xffff_ffff {
        Some(v->0 as u32)
    } else {
        None
    }
}

/// `u32::from_str_radix(s, 16)`: `Ok` with the value of `s` where `s` is
/// an optional `+` followed by hexadecimal digits whose value fits in a
/// `u32`, an error otherwise. Which error kind comes out is not stated.
#[verifier::external_body]
fn parse_hex_u32(s: &str) -> (r: Result<u32, core::num::ParseIntError>)
    ensures
        match r {
            Ok(n) => hex_u32(s@) == Some(n),
            Err(_) => hex_u32(s@) is None,
        },
{
    u32::from_str_radix(s, 16)
}

/// What the `.bk2` archive `archive` holds under `name`, as the zip crate reads it: `None`
/// when the archive does not open or the entry does not read as text, `Some(None)` when
/// there is no such entry, else the entry's text.
pub uninterp spec fn zip_entry_text(archive: Seq<u8>, name: Seq<char>) -> Option<Option<Seq<char>>>;

/// `zip::ZipArchive::new` on the bytes, `ZipArchive::by_name` and `Read::read_to_string`
/// on the entry: the text of the entry `name` of the archive. The result depends on the
/// bytes and the name alone and is named `zip_entry_text`; nothing more is claimed of it.
#[verifier::external_body]
fn read_zip_entry(archive: &Vec<u8>, name: &str) -> (r: Option<Option<String>>)
    ensures
        match r {
            None => zip_entry_text(archive@, name@) is None,
            Some(None) => zip_entry_text(archive@, name@) == Some(None::<Seq<char>>),
            Some(Some(t)) => zip_entry_text(archive@, name@) == Some(Some(t@)),
        },
{
    let mut zip = match zip::ZipArchive::new(std::io::Cursor::new(archive.as_slice())) {
        Ok(z) => z,
        Err(_) => return None,
    };
    let mut entry = match zip.by_name(name) {
        Ok(e) => e,
        Err(_) => return Some(None),
    };
    let mut text = String::new();
    match std::io::Read::read_to_string(&mut entry, &mut text) {
        Ok(_) => Some(Some(text)),
        Err(_) => None,
    }
}

/// The headers that an entry of a movie archive gives: none when the entry is missing.
pub open spec fn entry_headers(entry: Option<Seq<char>>) -> Map<Seq<char>, Seq<char>> {
    match entry {
        Some(t) => header_map(lines_of(t)),
        None => Map::empty(),
    }
}

/// The frames that an entry of a movie archive gives: none when the entry is missing.
pub open spec fn entry_frames(entry: Option<Seq<char>>) -> Seq<ControllerState> {
    match entry {
        Some(t) => bk2_frames(lines_of(t)),
        None => Seq::empty(),
    }
}

/// A movie: its header and its frames.
pub struct Bk2Movie {
    pub header: HeaderMap,
    pub frames: Vec<ControllerState>,
    index: usize,
}

impl Default for Bk2Movie {
    fn default() -> (r: Self)
        ensures
            r.headers() == Map::<Seq<char>, Seq<char>>::empty(),
            r.frame_list() == Seq::<ControllerState>::empty(),
            r.position() == 0,
    {
        Bk2Movie { header: HeaderMap::new(), frames: Vec::new(), index: 0 }
    }
}

impl Bk2Movie {
    /// The number of frames handed out so far.
    pub closed spec fn position(&self) -> nat {
        self.index as nat
    }

    /// The headers of the movie.
    pub closed spec fn headers(&self) -> Map<Seq<char>, Seq<char>> {
        self.header.map()
    }

    /// The frames of the movie.
    pub closed spec fn frame_list(&self) -> Seq<ControllerState> {
        self.frames@
    }

    /// Reads a `.bk2` archive: the headers from `Header.txt` and the frames from
    /// `Input Log.txt`, each left empty where its entry is missing. Fails when the archive
    /// does not open or an entry does not read as text.
    pub fn parse_archive(archive: &Vec<u8>) -> (r: Result<Bk2Movie, ()>)
        ensures
            r is Ok <==> zip_entry_text(archive@, "Header.txt"@) is Some
                && zip_entry_text(archive@, "Input Log.txt"@) is Some,
            r matches Ok(movie) ==> {
                &&& movie.headers() == entry_headers(zip_entry_text(archive@, "Header.txt"@).unwrap())
                &&& movie.frame_list() == entry_frames(zip_entry_text(archive@, "Input Log.txt"@).unwrap())
                &&& movie.position() == 0
            },
    {
        let header = match read_zip_entry(archive, "Header.txt") {
            None => return Err(()),
            Some(None) => HeaderMap::new(),
            Some(Some(text)) => Self::parse_headers(text.as_str()),
        };
        let frames = match read_zip_entry(archive, "Input Log.txt") {
            None => return Err(()),
            Some(None) => Vec::new(),
            Some(Some(text)) => Self::parse_input_log(text.as_str()),
        };
        Ok(Bk2Movie { header, frames, index: 0 })
    }

    /// Parses the `Header.txt` key-value pairs.
    pub fn parse_headers(input: &str) -> (r: HeaderMap)
        ensures
            r.map() == header_map(lines_of(input@)),
    {
        let v = chars_of(input);
        let lines = line_ranges(&v);
        let ghost l = lines_of(v@);
        let mut map = HeaderMap::new();
        let mut k: usize = 0;
        while k < lines.len()
            invariant
                v@ == input@,
                l == lines_of(v@),
                range_texts(v@, lines@) =~~= l,
                forall|j: int|
                    #![trigger lines@[j]]
                    0 <= j < lines.len() ==> lines@[j].0 <= lines@[j].1 && lines@[j].1 <= v.len(),
                k <= lines.len(),
                map.map() == header_map(l.take(k as int)),
            decreases lines.len() - k,
        {
            let (a, b) = lines[k];
            let ghost line = l[k as int];
            assert(range_texts(v@, lines@)[k as int] == line);
            assert(line == v@.subrange(a as int, b as int));
            assert(l.take(k + 1).drop_last() =~= l.take(k as int));
            assert(l.take(k + 1).last() == line);
            let (x, y) = trim_range(&v, a, b);
            let ghost t = trimmed(line);
            if x < y && v[x] != ';' {
                let parts = split_ranges(&v, x, y, ' ');
                if parts.len() >= 2 {
                    let (p, q) = parts[0];
                    assert(range_texts(v@, parts@)[0] == pieces(t, ' ')[0]);
                    assert(t.subrange(q - x + 1, t.len() as int) =~= v@.subrange(
                        q + 1,
                        y as int,
                    ));
                    let key = string_of(&v, p, q);
                    let value = string_of(&v, q + 1, y);
                    map.insert(key, value);
                }
            }
            k = k + 1;
        }
        assert(l.take(lines.len() as int) =~= l);
        map
    }

    /// Parses the `Input Log.txt` file into its frames: each line that,
    /// trimmed, starts with `|` and has a third `|`-separated field (the
    /// first player's buttons, in the order `UDLRSsBA`) is one frame.
    pub fn parse_input_log(input: &str) -> (r: Vec<ControllerState>)
        ensures
            r@ == bk2_frames(lines_of(input@)),
    {
        let v = chars_of(input);
        let lines = line_ranges(&v);
        let ghost l = lines_of(v@);
        let mut frames: Vec<ControllerState> = Vec::new();
        let mut k: usize = 0;
        while k < lines.len()
            invariant
                v@ == input@,
                l == lines_of(v@),
                range_texts(v@, lines@) =~~= l,
                forall|j: int|
                    #![trigger lines@[j]]
                    0 <= j < lines.len() ==> lines@[j].0 <= lines@[j].1 && lines@[j].1 <= v.len(),
                k <= lines.len(),
                frames@ == bk2_frames(l.take(k as int)),
            decreases lines.len() - k,
        {
            let (a, b) = lines[k];
            let ghost line = l[k as int];
            assert(range_texts(v@, lines@)[k as int] == line);
            assert(line == v@.subrange(a as int, b as int));
            assert(l.take(k + 1).drop_last() =~= l.take(k as int));
            assert(l.take(k + 1).last() == line);
            let (x, y) = trim_range(&v, a, b);
            let ghost t = trimmed(line);
            if x < y && v[x] == '|' {
                let parts = split_ranges(&v, x, y, '|');
                if parts.len() >= 3 {
                    let (p, q) = parts[2];
                    assert(range_texts(v@, parts@)[2] == pieces(t, '|')[2]);
                    let field = string_of(&v, p, q);
                    let bytes = field.as_str().as_bytes();
                    let state = ControllerState {
                        up: bytes.len() > 0 && bytes[0] == 0x55,
                        down: bytes.len() > 1 && bytes[1] == 0x44,
                        left: bytes.len() > 2 && bytes[2] == 0x4c,
                        right: bytes.len() > 3 && bytes[3] == 0x52,
                        start: bytes.len() > 4 && bytes[4] == 0x53,
                        select: bytes.len() > 5 && bytes[5] == 0x73,
                        b: bytes.len() > 6 && bytes[6] == 0x42,
                        a: bytes.len() > 7 && bytes[7] == 0x41,
                    };
                    assert(state == bk2_state(pieces(t, '|')[2]));
                    frames.push(state);
                }
            }
            k = k + 1;
        }
        assert(l.take(lines.len() as int) =~= l);
        frames
    }

    /// The value of the header `key`.
    pub fn _get_header(&self, key: &str) -> (r: Option<&str>)
        ensures
            match r {
                Some(v) => self.headers().contains_key(key@) && v@ == self.headers()[key@],
                None => !self.headers().contains_key(key@),
            },
    {
        match self.header.get(key) {
            Some(s) => Some(s.as_str()),
            None => None,
        }
    }

    /// The emulator system or core the movie was made with.
    pub fn _system(&self) -> (r: Option<&str>)
        ensures
            match r {
                Some(v) => self.headers().contains_key(seq!['S', 'y', 's', 't', 'e', 'm'])
                    && v@ == self.headers()[seq!['S', 'y', 's', 't', 'e', 'm']],
                None => !self.headers().contains_key(seq!['S', 'y', 's', 't', 'e', 'm']),
            },
    {
        let key = "System";
        proof {
            reveal_strlit("System");
            assert(key@ =~= seq!['S', 'y', 's', 't', 'e', 'm']);
        }
        self._get_header(key)
    }

    /// The header that names the ROM's hash: `SHA1`, else `MD5`, else empty.
    pub open spec fn checksum_header(&self) -> Seq<char> {
        let sha1 = seq!['S', 'H', 'A', '1'];
        let md5 = seq!['M', 'D', '5'];
        if self.headers().contains_key(sha1) {
            self.headers()[sha1]
        } else if self.headers().contains_key(md5) {
            self.headers()[md5]
        } else {
            seq![]
        }
    }

    /// The ROM's hash read as a hexadecimal `u32`, from the `SHA1` header,
    /// else the `MD5` header, else the empty text.
    pub fn _rom_checksum(&self) -> (r: Result<u32, core::num::ParseIntError>)
        ensures
            match r {
                Ok(n) => hex_u32(self.checksum_header()) == Some(n),
                Err(_) => hex_u32(self.checksum_header()) is None,
            },
    {
        let sha1 = "SHA1";
        let md5 = "MD5";
        let empty = "";
        proof {
            reveal_strlit("SHA1");
            reveal_strlit("MD5");
            reveal_strlit("");
            assert(sha1@ =~= seq!['S', 'H', 'A', '1']);
            assert(md5@ =~= seq!['M', 'D', '5']);
            assert(empty@ =~= Seq::<char>::empty());
        }
        let s = match self._get_header(sha1) {
            Some(x) => Some(x),
            None => self._get_header(md5),
        };
        parse_hex_u32(
            match s {
                Some(x) => x,
                None => empty,
            },
        )
    }

    /// Total number of input frames.
    pub fn _frame_count(&self) -> (r: usize)
        ensures
            r == self.frame_list().len(),
    {
        self.frames.len()
    }

    /// Advances and returns the next frame's controller state, or `None`
    /// when the movie is finished.
    pub fn next_state(&mut self) -> (r: Option<ControllerState>)
        ensures
            next_state_step(*old(self), *final(self), r),
            old(self).position() >= old(self).frame_list().len() ==> r is None && *final(self)
                == *old(self),
            old(self).position() < old(self).frame_list().len() ==> r == Some(
                old(self).frame_list()[old(self).position() as int],
            ) && final(self).position() == old(self).position() + 1 && final(self).frame_list()
                == old(self).frame_list() && final(self).headers() == old(self).headers(),
    {
        if self.index >= self.frames.len() {
            None
        } else {
            let result = self.frames[self.index];
            self.index = self.index + 1;
            Some(result)
        }
    }
}

/// What one call of `next_state` does, as its contract states it.
pub open spec fn next_state_step(m0: Bk2Movie, m1: Bk2Movie, r: Option<ControllerState>) -> bool {
    &&& m0.position() >= m0.frame_list().len() ==> r is None && m1 == m0
    &&& m0.position() < m0.frame_list().len() ==> r == Some(m0.frame_list()[m0.position() as int])
        && m1.position() == m0.position() + 1 && m1.frame_list() == m0.frame_list()
        && m1.headers() == m0.headers()
}

/// Law: from the start of a movie, successive calls of `next_state` give its frames in
/// order, then `None`.
pub proof fn lemma_frames_in_order(ms: Seq<Bk2Movie>, rs: Seq<Option<ControllerState>>)
    requires
        ms.len() == rs.len() + 1,
        ms[0].position() == 0,
        forall|i: int| 0 <= i < rs.len() ==> #[trigger] next_state_step(ms[i], ms[i + 1], rs[i]),
    ensures
        forall|i: int| 0 <= i < rs.len() ==> #[trigger] rs[i] == (if i < ms[0].frame_list().len() {
            Some(ms[0].frame_list()[i])
        } else {
            None
        }),
{
    assert forall|i: int| 0 <= i < rs.len() implies #[trigger] rs[i] == (if i < ms[0].frame_list().len() {
        Some(ms[0].frame_list()[i])
    } else {
        None
    }) by {
        lemma_position(ms, rs, i);
        assert(next_state_step(ms[i], ms[i + 1], rs[i]));
    }
}

/// After `k` calls from the start, the movie stands at frame `k` (or at its end) with
/// its frames unchanged.
proof fn lemma_position(ms: Seq<Bk2Movie>, rs: Seq<Option<ControllerState>>, k: int)
    requires
        ms.len() == rs.len() + 1,
        ms[0].position() == 0,
        forall|i: int| 0 <= i < rs.len() ==> #[trigger] next_state_step(ms[i], ms[i + 1], rs[i]),
        0 <= k <= rs.len(),
    ensures
        ms[k].position() == (if k < ms[0].frame_list().len() { k } else { ms[0].frame_list().len() as int }),
        ms[k].frame_list() == ms[0].frame_list(),
    decreases k,
{
    if k > 0 {
        lemma_position(ms, rs, k - 1);
        let j = k - 1;
        assert(next_state_step(ms[j], ms[j + 1], rs[j]));
    }
}

} // verus!
