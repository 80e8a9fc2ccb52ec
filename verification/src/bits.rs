use vstd::prelude::*;

verus! {

/// Bit `bit` of a byte, read by mask or by shift.
proof fn lemma_u8_bit(value: u8, bit: u8)
    by (bit_vector)
    ensures
        bit < 8 ==> (((value & (1u8 << bit)) != 0) == (((value >> bit) & 1u8) == 1u8)),
        ((value >> bit) & 1u8) <= 1u8,
{
}

/// Fields of a 16-bit word: extracting `count` bits at `shift`, and replacing the field
/// `keep_mask << shift`.
proof fn lemma_u16_fields(value: u16, count: u16, shift: u16, v: u16, keep_mask: u16)
    by (bit_vector)
    ensures
        1 <= count < 16 ==> (1u16 << count) >= 2,
        1 <= count < 16 && shift < 16 ==>
            (value >> shift) & (((1u16 << count) - 1) as u16) == (value >> shift) % (1u16 << count),
        shift < 16 ==>
            ((v & !(keep_mask << shift)) | (((value & keep_mask) << shift) & (keep_mask << shift)))
                & !(keep_mask << shift) == v & !(keep_mask << shift),
        shift < 16 ==>
            (((v & !(keep_mask << shift)) | (((value & keep_mask) << shift) & (keep_mask << shift)))
                >> shift) & keep_mask == (value & keep_mask) & (0xffffu16 >> shift),
{
}


/// `true` when bit `bit` of `value` is set.
pub fn is_set(value: u8, bit: u8) -> (r: bool)
    requires
        bit < 8,
    ensures
        r == ((value & (1u8 << bit)) != 0),
        r == (((value >> bit) & 1u8) == 1u8),
{
    proof {
        lemma_u8_bit(value, bit);
    }
    (value & (1u8 << bit)) != 0
}

/// Bit `bit` of `value`, as 0 or 1.
pub fn get_bit(value: u8, bit: u8) -> (r: u8)
    requires
        bit < 8,
    ensures
        r == (value >> bit) & 1u8,
        r <= 1,
{
    proof {
        lemma_u8_bit(value, bit);
    }
    (value >> bit) & 1
}

/// The `count` bits of `value` that start at bit `shift`.
pub open spec fn bits_of(value: u16, count: u16, shift: u16) -> u16 {
    (value >> shift) & (((1u16 << count) - 1) as u16)
}

/// Extracts `count` bits of `value` starting at bit `shift`.
pub fn get_bits(value: u16, count: u16, shift: u16) -> (r: u16)
    requires
        1 <= count < 16,
        shift < 16,
    ensures
        r == bits_of(value, count, shift),
        r == (value >> shift) % (1u16 << count),
{
    proof {
        lemma_u16_fields(value, count, shift, 0, 0);
    }
    (value >> shift) & ((1u16 << count) - 1)
}

/// The value that `set_bits_with_mask` computes: the field of `v` selected by
/// `keep_mask << shift` is replaced by the low bits of `value`.
pub open spec fn with_mask(v: u16, value: u16, keep_mask: u16, shift: u16) -> u16 {
    (v & !(keep_mask << shift)) | (((value & keep_mask) << shift) & (keep_mask << shift))
}

/// Replaces the field `keep_mask << shift` of `v` with `value & keep_mask`.
/// Example: `t: ...GH.. ........ <- d: ......GH` is
/// `set_bits_with_mask(t, d, 0b11, 10)`.
pub fn set_bits_with_mask(v: u16, value: u16, keep_mask: u16, shift: u16) -> (r: u16)
    requires
        shift < 16,
    ensures
        r == with_mask(v, value, keep_mask, shift),
        // bits outside the field are those of `v`
        r & !(keep_mask << shift) == v & !(keep_mask << shift),
        // the field holds the low bits of `value`
        (r >> shift) & keep_mask == (value & keep_mask) & (0xffffu16 >> shift),
{
    proof {
        lemma_u16_fields(value, 1, shift, v, keep_mask);
    }
    (v & !(keep_mask << shift)) | (((value & keep_mask) << shift) & (keep_mask << shift))
}

} // verus!
