//! The ROM list's filter: the ROMs whose name contains the filter text, ignoring case.
use vstd::prelude::*;
use crate::constants::{RomInfo, display_name};
use crate::text::chars_of;

verus! {

/// The lower case of a text as Unicode defines it (std's `str::to_lowercase`).
pub uninterp spec fn unicode_lowercase(s: Seq<char>) -> Seq<char>;

/// `str::to_lowercase`: the text in lower case, character by character as Unicode's case
/// tables say, which depends on the text alone. Every character has a lower case of one
/// or more characters, so the result is empty exactly when the text is; nothing more is
/// claimed of it here.
#[verifier::external_body]
fn to_lowercase(s: &str) -> (r: String)
    ensures
        r@ == unicode_lowercase(s@),
        r@.len() == 0 <==> s@.len() == 0,
{
    s.to_lowercase()
}

/// `needle` occurs in `hay` at position `k`.
pub open spec fn occurs_at(hay: Seq<char>, needle: Seq<char>, k: int) -> bool {
    0 <= k && k + needle.len() <= hay.len() && hay.subrange(k, k + needle.len()) == needle
}

/// `needle` occurs somewhere in `hay` (the empty text occurs in every text).
pub open spec fn contains_text(hay: Seq<char>, needle: Seq<char>) -> bool {
    exists|k: int| occurs_at(hay, needle, k)
}

/// A ROM name passes the filter: its lower case contains the filter's lower case.
pub open spec fn name_passes(name: Seq<char>, filter: Seq<char>) -> bool {
    contains_text(unicode_lowercase(name), unicode_lowercase(filter))
}

/// Whether `needle` occurs in `hay` at `k`.
fn occurs_at_exec(hay: &Vec<char>, needle: &Vec<char>, k: usize) -> (r: bool)
    requires
        k + needle.len() <= hay.len(),
    ensures
        r == occurs_at(hay@, needle@, k as int),
{
    let mut j: usize = 0;
    while j < needle.len()
        invariant
            k + needle.len() <= hay.len(),
            j <= needle.len(),
            forall|t: int| 0 <= t < j ==> hay@[k + t] == needle@[t],
        decreases needle.len() - j,
    {
        if hay[k + j] != needle[j] {
            assert(hay@.subrange(k as int, k + needle.len())[j as int] != needle@[j as int]);
            return false;
        }
        j = j + 1;
    }
    assert(hay@.subrange(k as int, k + needle.len()) =~= needle@);
    true
}

/// Whether `needle` occurs somewhere in `hay`.
fn contains_chars(hay: &Vec<char>, needle: &Vec<char>) -> (r: bool)
    ensures
        r == contains_text(hay@, needle@),
{
    if needle.len() > hay.len() {
        return false;
    }
    let last = hay.len() - needle.len();
    let mut k: usize = 0;
    loop
        invariant_except_break
            last == hay.len() - needle.len(),
            needle.len() <= hay.len(),
            k <= last,
            forall|t: int| 0 <= t < k ==> !occurs_at(hay@, needle@, t),
        ensures
            last == hay.len() - needle.len(),
            forall|t: int| 0 <= t <= last ==> !occurs_at(hay@, needle@, t),
        decreases last - k,
    {
        if occurs_at_exec(hay, needle, k) {
            return true;
        }
        if k == last {
            break;
        }
        k = k + 1;
    }
    assert forall|t: int| !occurs_at(hay@, needle@, t) by {
        if 0 <= t && t + needle.len() <= hay.len() {
            assert(t <= last);
        }
    }
    false
}

/// The indices, in order, of the ROMs whose name passes `filter`; with an empty filter,
/// every ROM.
pub fn filtered_rom_indices(roms: &Vec<RomInfo>, filter: &str) -> (r: Vec<usize>)
    ensures
        forall|j: int, k: int| 0 <= j < k < r.len() ==> r@[j] < r@[k],
        forall|j: int| 0 <= j < r.len() ==> r@[j] < roms.len()
            && name_passes(display_name(roms@[r@[j] as int].file_name@), filter@),
        forall|i: int| 0 <= i < roms.len() && name_passes(display_name(roms@[i].file_name@), filter@)
            ==> exists|j: int| 0 <= j < r.len() && r@[j] == i,
        filter@.len() == 0 ==> r@ == Seq::new(roms.len() as nat, |i: int| i as usize),
{
    let lowered = to_lowercase(filter);
    let needle = chars_of(lowered.as_str());
    let mut r: Vec<usize> = Vec::new();
    if needle.len() == 0 {
        let mut i: usize = 0;
        while i < roms.len()
            invariant
                i <= roms.len(),
                r@ == Seq::new(i as nat, |k: int| k as usize),
            decreases roms.len() - i,
        {
            r.push(i);
            assert(r@ =~= Seq::new((i + 1) as nat, |k: int| k as usize));
            i = i + 1;
        }
        assert forall|t: int| 0 <= t < roms.len() implies name_passes(display_name(roms@[t].file_name@),
            filter@) by {
            let hay = unicode_lowercase(display_name(roms@[t].file_name@));
            assert(hay.subrange(0, 0) =~= needle@);
            assert(occurs_at(hay, needle@, 0));
        }
        assert forall|t: int| 0 <= t < roms.len() && #[trigger] name_passes(display_name(roms@[t].file_name@),
            filter@) implies exists|j: int| 0 <= j < r.len() && r@[j] == t by {
            assert(r@[t] == t);
        }
        return r;
    }
    let mut i: usize = 0;
    while i < roms.len()
        invariant
            i <= roms.len(),
            needle@ == unicode_lowercase(filter@),
            forall|j: int, k: int| 0 <= j < k < r.len() ==> r@[j] < r@[k],
            forall|j: int| 0 <= j < r.len() ==> r@[j] < i
                && name_passes(display_name(roms@[r@[j] as int].file_name@), filter@),
            forall|t: int| 0 <= t < i && name_passes(display_name(roms@[t].file_name@), filter@)
                ==> exists|j: int| 0 <= j < r.len() && r@[j] == t,
        decreases roms.len() - i,
    {
        let name = roms[i].name();
        let lowered_name = to_lowercase(name.as_str());
        let hay = chars_of(lowered_name.as_str());
        if contains_chars(&hay, &needle) {
            let ghost before = r@;
            r.push(i);
            assert forall|t: int| 0 <= t < i + 1 && name_passes(display_name(roms@[t].file_name@), filter@)
                implies exists|j: int| 0 <= j < r.len() && r@[j] == t by {
                if t < i {
                    let j = choose|j: int| 0 <= j < before.len() && before[j] == t;
                    assert(r@[j] == t);
                } else {
                    assert(r@[r.len() - 1] == t);
                }
            }
        }
        i = i + 1;
    }
    r
}

} // verus!
