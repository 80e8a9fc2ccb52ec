//! Names for addresses, used when disassembling.
use vstd::prelude::*;
use std::collections::HashMap;
use crate::text::{
    chars_of, has_prefix, hex_u16, line_ranges, lines_of, parse_hex_u16, pieces, range_has_prefix,
    range_texts, split_ranges, string_of, trim_range, trimmed,
};

verus! {

broadcast use vstd::std_specs::hash::group_hash_axioms;

/// Labels: a map from addresses to names.
#[derive(Clone, Debug)]
pub struct Labels {
    map: HashMap<u16, String>,
}

/// The entry a line of a label file gives: `Name=Address`, both trimmed,
/// from a trimmed line that is neither blank nor a `#` comment and holds an `=`.
pub open spec fn label_line(line: Seq<char>) -> Option<(Seq<char>, Seq<char>)> {
    let t = trimmed(line);
    let p = pieces(t, '=');
    if t.len() == 0 || t[0] == '#' || p.len() < 2 {
        None
    } else {
        Some((trimmed(p[0]), trimmed(t.subrange(p[0].len() + 1int, t.len() as int))))
    }
}

/// The address written as `0x` or `0X` then hexadecimal, `$` then
/// hexadecimal, or hexadecimal alone.
pub open spec fn label_address(s: Seq<char>) -> Option<u16> {
    if has_prefix(s, seq!['0', 'x']) || has_prefix(s, seq!['0', 'X']) {
        hex_u16(s.subrange(2, s.len() as int))
    } else if has_prefix(s, seq!['$']) {
        hex_u16(s.subrange(1, s.len() as int))
    } else {
        hex_u16(s)
    }
}

/// The labels that `lines` define, a later line for an address replacing
/// an earlier one; lines whose address does not read are skipped.
pub open spec fn labels_of(lines: Seq<Seq<char>>) -> Map<u16, Seq<char>>
    decreases lines.len(),
{
    if lines.len() == 0 {
        Map::empty()
    } else {
        let earlier = labels_of(lines.drop_last());
        match label_line(lines.last()) {
            Some(e) => match label_address(e.1) {
                Some(a) => earlier.insert(a, e.0),
                None => earlier,
            },
            None => earlier,
        }
    }
}

/// The entries of `lines` whose address does not read: the address text and the name.
pub open spec fn bad_labels(lines: Seq<Seq<char>>) -> Seq<(Seq<char>, Seq<char>)>
    decreases lines.len(),
{
    if lines.len() == 0 {
        seq![]
    } else {
        let earlier = bad_labels(lines.drop_last());
        match label_line(lines.last()) {
            Some(e) => match label_address(e.1) {
                Some(a) => earlier,
                None => earlier.push((e.1, e.0)),
            },
            None => earlier,
        }
    }
}

impl Labels {
    /// The names, by address.
    pub closed spec fn names(&self) -> Map<u16, Seq<char>> {
        self.map@.map_values(|s: String| s@)
    }

    /// No label.
    pub fn new() -> (r: Self)
        ensures
            r.names() == Map::<u16, Seq<char>>::empty(),
    {
        let r = Labels { map: HashMap::new() };
        assert(r.names() =~= Map::<u16, Seq<char>>::empty());
        r
    }

    /// Get a label by address
    pub fn get(&self, address: &u16) -> (r: Option<&String>)
        ensures
            match r {
                Some(v) => self.names().contains_key(*address) && v@ == self.names()[*address],
                None => !self.names().contains_key(*address),
            },
    {
        self.map.get(address)
    }

    /// Insert a new label, returning the one it replaces.
    pub fn insert(&mut self, address: u16, label: String) -> (r: Option<String>)
        ensures
            final(self).names() == old(self).names().insert(address, label@),
            match r {
                Some(v) => old(self).names().contains_key(address) && v@ == old(self).names()[address],
                None => !old(self).names().contains_key(address),
            },
    {
        let ghost l = label@;
        let r = self.map.insert(address, label);
        assert(self.names() =~= old(self).names().insert(address, l));
        r
    }

    /// Get the underlying HashMap
    pub fn as_hashmap(&self) -> (r: &HashMap<u16, String>)
        ensures
            r@.map_values(|s: String| s@) == self.names(),
    {
        &self.map
    }

    /// Convert into the underlying HashMap
    pub fn into_hashmap(self) -> (r: HashMap<u16, String>)
        ensures
            r@.map_values(|s: String| s@) == self.names(),
    {
        self.map
    }

    /// Labels from address and name pairs, a later pair for an address
    /// replacing an earlier one.
    pub fn from_pairs(pairs: Vec<(u16, String)>) -> (r: Self)
        ensures
            r.names() == pairs_map(pairs@),
    {
        let mut labels = Labels::new();
        let mut i: usize = 0;
        assert(pairs@.take(0) =~= Seq::<(u16, String)>::empty());
        while i < pairs.len()
            invariant
                i <= pairs.len(),
                labels.names() == pairs_map(pairs@.take(i as int)),
            decreases pairs.len() - i,
        {
            let address = pairs[i].0;
            let name = pairs[i].1.clone();
            labels.insert(address, name);
            assert(pairs@.take(i + 1).drop_last() =~= pairs@.take(i as int));
            i = i + 1;
        }
        assert(pairs@.take(pairs.len() as int) =~= pairs@);
        labels
    }

    /// Reads a label file: one `Name=Address` per line, the address in
    /// hexadecimal after an optional `0x`, `0X` or `$`; blank lines and
    /// lines starting with `#` are skipped. Also returns, for each entry
    /// whose address does not read, the address text and the name.
    pub fn parse(content: &str) -> (r: (Labels, Vec<(String, String)>))
        ensures
            r.0.names() == labels_of(lines_of(content@)),
            r.1@.map_values(|e: (String, String)| (e.0@, e.1@)) == bad_labels(lines_of(content@)),
    {
        let v = chars_of(content);
        let lines = line_ranges(&v);
        let ghost l = lines_of(v@);
        let mut labels = Labels::new();
        let mut bad: Vec<(String, String)> = Vec::new();
        let hex_lower = vec!['0', 'x'];
        let hex_upper = vec!['0', 'X'];
        let dollar = vec!['$'];
        let mut k: usize = 0;
        while k < lines.len()
            invariant
                v@ == content@,
                l == lines_of(v@),
                range_texts(v@, lines@) =~~= l,
                forall|j: int|
                    #![trigger lines@[j]]
                    0 <= j < lines.len() ==> lines@[j].0 <= lines@[j].1 && lines@[j].1 <= v.len(),
                hex_lower@ == seq!['0', 'x'],
                hex_upper@ == seq!['0', 'X'],
                dollar@ == seq!['$'],
                k <= lines.len(),
                labels.names() == labels_of(l.take(k as int)),
                bad@.map_values(|e: (String, String)| (e.0@, e.1@)) == bad_labels(l.take(k as int)),
            decreases lines.len() - k,
        {
            let (a, b) = lines[k];
            let ghost line = l[k as int];
            assert(range_texts(v@, lines@)[k as int] == line);
            assert(line == v@.subrange(a as int, b as int));
            assert(l.take(k + 1).drop_last() =~= l.take(k as int));
            assert(l.take(k + 1).last() == line);
            let (x, y) = trim_range(&v, a, b);
            let ghost t = trimmed(line);
            if x < y && v[x] != '#' {
                let parts = split_ranges(&v, x, y, '=');
                if parts.len() >= 2 {
                    let (p, q) = parts[0];
                    assert(range_texts(v@, parts@)[0] == pieces(t, '=')[0]);
                    assert(t.subrange(q - x + 1, t.len() as int) =~= v@.subrange(q + 1, y as int));
                    let (n0, n1) = trim_range(&v, p, q);
                    let (a0, a1) = trim_range(&v, q + 1, y);
                    let ghost addr = v@.subrange(a0 as int, a1 as int);
                    let address = if range_has_prefix(&v, a0, a1, &hex_lower) || range_has_prefix(
                        &v,
                        a0,
                        a1,
                        &hex_upper,
                    ) {
                        assert(addr.subrange(2, addr.len() as int) =~= v@.subrange(a0 + 2, a1 as int));
                        parse_hex_u16(&v, a0 + 2, a1)
                    } else if range_has_prefix(&v, a0, a1, &dollar) {
                        assert(addr.subrange(1, addr.len() as int) =~= v@.subrange(a0 + 1, a1 as int));
                        parse_hex_u16(&v, a0 + 1, a1)
                    } else {
                        parse_hex_u16(&v, a0, a1)
                    };
                    let name = string_of(&v, n0, n1);
                    match address {
                        Some(at) => {
                            labels.insert(at, name);
                        },
                        None => {
                            let text = string_of(&v, a0, a1);
                            let ghost before = bad@;
                            bad.push((text, name));
                            assert(bad@.map_values(|e: (String, String)| (e.0@, e.1@)) =~= before.map_values(
                                |e: (String, String)| (e.0@, e.1@),
                            ).push((addr, v@.subrange(n0 as int, n1 as int))));
                        },
                    }
                }
            }
            k = k + 1;
        }
        assert(l.take(lines.len() as int) =~= l);
        (labels, bad)
    }
}

/// The map that the pairs give, a later pair for an address replacing an earlier one.
pub open spec fn pairs_map(pairs: Seq<(u16, String)>) -> Map<u16, Seq<char>>
    decreases pairs.len(),
{
    if pairs.len() == 0 {
        Map::empty()
    } else {
        pairs_map(pairs.drop_last()).insert(pairs.last().0, pairs.last().1@)
    }
}

impl Default for Labels {
    fn default() -> (r: Self)
        ensures
            r.names() == Map::<u16, Seq<char>>::empty(),
    {
        Labels::new()
    }
}

} // verus!
