//! Screen size, window title and the description of a ROM file.
use vstd::prelude::*;
use crate::text::{chars_of, push_char};

verus! {

pub const WIDTH: usize = 256;

pub const HEIGHT: usize = 240;

pub const DEMO_DELAY_SECONDS: u64 = 5;

pub const SELECTED_ROM: usize = 18;

/// `char::is_alphanumeric`: whether `c` has the Unicode property
/// Alphabetic or is a Unicode number.
pub uninterp spec fn unicode_alphanumeric(c: char) -> bool;

/// `char::is_alphanumeric`; its result is the name above, a function of
/// `c` alone (the Unicode tables are not written out here).
#[verifier::external_body]
fn is_alphanumeric(c: char) -> (r: bool)
    ensures
        r == unicode_alphanumeric(c),
{
    c.is_alphanumeric()
}

/// `\` or `/`.
pub open spec fn is_path_separator(c: char) -> bool {
    c == '\\' || c == '/'
}

/// The part of `path` after its last separator.
pub open spec fn last_component(path: Seq<char>) -> Seq<char>
    decreases path.len(),
{
    if path.len() == 0 {
        path
    } else if is_path_separator(path.last()) {
        seq![]
    } else {
        last_component(path.drop_last()).push(path.last())
    }
}

/// `.nes`
pub open spec fn nes_extension() -> Seq<char> {
    seq!['.', 'n', 'e', 's']
}

/// `s` without a final `.nes`.
pub open spec fn without_extension(s: Seq<char>) -> Seq<char> {
    if s.len() >= 4 && s.subrange(s.len() - 4, s.len() as int) == nes_extension() {
        s.subrange(0, s.len() - 4)
    } else {
        s
    }
}

/// The words of `s` read so far (its runs of alphanumeric characters,
/// joined by single spaces), and whether a separator followed the last word.
pub open spec fn words_scan(s: Seq<char>) -> (Seq<char>, bool)
    decreases s.len(),
{
    if s.len() == 0 {
        (seq![], false)
    } else {
        let (out, gap) = words_scan(s.drop_last());
        let c = s.last();
        if unicode_alphanumeric(c) {
            (
                if gap && out.len() > 0 {
                    out.push(' ')
                } else {
                    out
                }.push(c),
                false,
            )
        } else {
            (out, true)
        }
    }
}

/// The display name of a ROM file: the last component of the path, without
/// `.nes`, its runs of alphanumeric characters joined by single spaces.
pub open spec fn display_name(file_name: Seq<char>) -> Seq<char> {
    words_scan(without_extension(last_component(file_name))).0
}

#[derive(Clone, Debug)]
pub struct RomInfo {
    pub file_name: String,
    pub _name: Option<String>,
    pub id: usize,
}

impl Default for RomInfo {
    fn default() -> (r: Self)
        ensures
            r.id == 0,
    {
        RomInfo::n2(0, "Donkey_Kong.nes", "Donkey Kong")
    }
}

impl RomInfo {
    /// A ROM known by its file alone.
    pub fn n(id: usize, file_name: &str) -> (r: Self)
        ensures
            r.id == id,
            r.file_name@ == file_name@,
            r._name is None,
    {
        Self::n3(id, file_name.to_owned(), None)
    }

    fn n2(id: usize, file_name: &str, name: &str) -> (r: Self)
        ensures
            r.id == id,
            r.file_name@ == file_name@,
            r._name matches Some(s) && s@ == name@,
    {
        Self::n3(id, file_name.to_owned(), Some(name.to_owned()))
    }

    fn n3(id: usize, file_name: String, name: Option<String>) -> (r: Self)
        ensures
            r.id == id,
            r.file_name == file_name,
            r._name == name,
    {
        Self { file_name, _name: name, id }
    }

    /// The name shown for the ROM: the file name without its directories
    /// and its `.nes`, with every run of characters that are not letters
    /// or digits turned into one space, and no space at either end.
    pub fn name(&self) -> (r: String)
        ensures
            r@ == display_name(self.file_name@),
    {
        let v = chars_of(self.file_name.as_str());
        // the last component
        let mut start: usize = v.len();
        assert(v@.subrange(0, start as int) =~= v@);
        assert(v@.subrange(start as int, v.len() as int) =~= Seq::<char>::empty());
        assert(last_component(v@) =~= last_component(v@.subrange(0, start as int)) + v@.subrange(
            start as int,
            v.len() as int,
        ));
        while start > 0 && v[start - 1] != '\\' && v[start - 1] != '/'
            invariant
                start <= v.len(),
                last_component(v@) == last_component(v@.subrange(0, start as int)) + v@.subrange(
                    start as int,
                    v.len() as int,
                ),
            decreases start,
        {
            let ghost s = v@.subrange(0, start as int);
            assert(s.drop_last() =~= v@.subrange(0, start - 1));
            assert(v@.subrange(start - 1, v.len() as int) =~= seq![s.last()] + v@.subrange(
                start as int,
                v.len() as int,
            ));
            assert(last_component(s) == last_component(s.drop_last()).push(s.last()));
            assert(last_component(s.drop_last()).push(s.last()) + v@.subrange(start as int, v.len() as int)
                =~= last_component(s.drop_last()) + v@.subrange(start - 1, v.len() as int));
            start = start - 1;
        }
        assert(last_component(v@.subrange(0, start as int)) =~= Seq::<char>::empty()) by {
            if start > 0 {
                assert(v@.subrange(0, start as int).last() == v@[start - 1]);
            }
        }
        assert(last_component(v@) =~= v@.subrange(start as int, v.len() as int));
        // without .nes
        let mut end = v.len();
        if end - start >= 4 && v[end - 4] == '.' && v[end - 3] == 'n' && v[end - 2] == 'e' && v[end
            - 1] == 's' {
            end = end - 4;
        }
        proof {
            let c = v@.subrange(start as int, v.len() as int);
            if c.len() >= 4 && c.subrange(c.len() - 4, c.len() as int) == nes_extension() {
                assert(c.subrange(c.len() - 4, c.len() as int)[0] == '.');
                assert(c.subrange(c.len() - 4, c.len() as int)[1] == 'n');
                assert(c.subrange(c.len() - 4, c.len() as int)[2] == 'e');
                assert(c.subrange(c.len() - 4, c.len() as int)[3] == 's');
            }
            if end < v.len() {
                assert(c.subrange(c.len() - 4, c.len() as int) =~= nes_extension());
            }
            assert(without_extension(c) =~= v@.subrange(start as int, end as int));
        }
        // the words
        let mut out = String::new();
        let mut gap = false;
        let mut i = start;
        while i < end
            invariant
                start <= i <= end <= v.len(),
                words_scan(v@.subrange(start as int, i as int)) == (out@, gap),
            decreases end - i,
        {
            let c = v[i];
            assert(v@.subrange(start as int, i + 1).drop_last() =~= v@.subrange(start as int, i as int));
            if is_alphanumeric(c) {
                if gap && !out.as_str().is_empty() {
                    push_char(&mut out, ' ');
                }
                push_char(&mut out, c);
                gap = false;
            } else {
                gap = true;
            }
            i = i + 1;
        }
        out
    }

    pub fn file_name(&self) -> (r: String)
        ensures
            r == self.file_name,
    {
        self.file_name.clone()
    }

    /// The mapper number in the header of the ROM file, given the first
    /// bytes read from it (none where it could not be read).
    pub fn mapper_number(&self, first_bytes: &[u8]) -> (r: u8)
        ensures
            r == crate::rom_list::header_mapper(first_bytes@),
    {
        crate::rom_list::mapper_number(first_bytes)
    }
}

} // verus!
