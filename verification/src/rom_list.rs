//! Finding the ROM files that a given set of mappers can run.
use vstd::prelude::*;
use crate::constants::RomInfo;

verus! {

/// The mapper number an iNES header gives: the high nibbles of bytes 6
/// and 7; 0 where fewer than 8 bytes could be read.
pub open spec fn header_mapper(bytes: Seq<u8>) -> u8 {
    if bytes.len() >= 8 {
        ((bytes[6] & 0xf0) >> 4u8) | (bytes[7] & 0xf0)
    } else {
        0
    }
}

/// The mapper number from the first bytes of a .nes file (none, or fewer
/// than 8, where it could not be read).
pub fn mapper_number(first_bytes: &[u8]) -> (r: u8)
    ensures
        r == header_mapper(first_bytes@),
{
    if first_bytes.len() >= 8 {
        (first_bytes[6] & 0xf0) >> 4 | first_bytes[7] & 0xf0
    } else {
        0
    }
}

/// The files (path and mapper) whose mapper is one of `mappers`, in order.
pub open spec fn kept(found: Seq<(String, u8)>, mappers: Seq<u8>) -> Seq<Seq<char>>
    decreases found.len(),
{
    if found.len() == 0 {
        seq![]
    } else {
        let earlier = kept(found.drop_last(), mappers);
        if mappers.contains(found.last().1) {
            earlier.push(found.last().0@)
        } else {
            earlier
        }
    }
}

fn contains(mappers: &Vec<u8>, m: u8) -> (r: bool)
    ensures
        r == mappers@.contains(m),
{
    let mut i: usize = 0;
    while i < mappers.len()
        invariant
            i <= mappers.len(),
            forall|j: int| 0 <= j < i ==> mappers@[j] != m,
        decreases mappers.len() - i,
    {
        if mappers[i] == m {
            assert(mappers@[i as int] == m);
            return true;
        }
        i = i + 1;
    }
    false
}

/// The ROMs among the `.nes` files found (path and mapper number) whose
/// mapper is one of `mappers`, in order, numbered from 100.
pub fn roms_with_mappers(found: Vec<(String, u8)>, mappers: &Vec<u8>) -> (r: Vec<RomInfo>)
    requires
        found.len() < usize::MAX - 100,
    ensures
        r.len() == kept(found@, mappers@).len(),
        forall|i: int|
            0 <= i < r.len() ==> (#[trigger] r@[i]).file_name@ == kept(found@, mappers@)[i]
                && r@[i].id == 100 + i && r@[i]._name is None,
{
    let mut result: Vec<RomInfo> = Vec::new();
    let mut k: usize = 0;
    while k < found.len()
        invariant
            k <= found.len() < usize::MAX - 100,
            result.len() == kept(found@.take(k as int), mappers@).len(),
            result.len() <= k,
            forall|i: int|
                0 <= i < result.len() ==> (#[trigger] result@[i]).file_name@ == kept(
                    found@.take(k as int),
                    mappers@,
                )[i] && result@[i].id == 100 + i && result@[i]._name is None,
        decreases found.len() - k,
    {
        assert(found@.take(k + 1).drop_last() =~= found@.take(k as int));
        if contains(mappers, found[k].1) {
            let id = 100 + result.len();
            let name = found[k].0.clone();
            result.push(RomInfo { file_name: name, _name: None, id });
        }
        k = k + 1;
    }
    assert(found@.take(found.len() as int) =~= found@);
    result
}

} // verus!
