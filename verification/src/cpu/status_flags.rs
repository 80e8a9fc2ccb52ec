//! The processor status register P.
use vstd::prelude::*;

verus! {

/// Carry.
pub const FLAG_C: u8 = 0x01;

/// Zero.
pub const FLAG_Z: u8 = 0x02;

/// Interrupt disable.
pub const FLAG_I: u8 = 0x04;

/// Decimal mode.
pub const FLAG_D: u8 = 0x08;

/// Break.
pub const FLAG_B: u8 = 0x10;

/// Overflow.
pub const FLAG_V: u8 = 0x40;

/// Negative.
pub const FLAG_N: u8 = 0x80;

/// `p` with the bits of `mask` set where `on` holds and cleared otherwise.
pub open spec fn with_flag(p: u8, mask: u8, on: bool) -> u8 {
    if on {
        p | mask
    } else {
        p & !mask
    }
}

/// `p` with Z and N set from `value`: Z when it is zero, N from its bit 7.
pub open spec fn with_nz(p: u8, value: u8) -> u8 {
    with_flag(with_flag(p, FLAG_Z, value == 0), FLAG_N, value & 0x80 != 0)
}

/// The status register: N V - B D I Z C from bit 7 down to bit 0.
#[derive(Clone, Copy, PartialEq, Eq, Structural, Debug)]
pub struct StatusFlags {
    pub bits: u8,
}

impl StatusFlags {
    /// The power-up state: interrupts disabled and the unused bit set.
    pub fn new() -> (r: Self)
        ensures
            r.bits == 0x24,
    {
        StatusFlags { bits: 0x24 }
    }

    /// The register as a byte.
    pub fn value(&self) -> (r: u8)
        ensures
            r == self.bits,
    {
        self.bits
    }

    /// Loads the register from a byte.
    pub fn set_value(&mut self, value: u8)
        ensures
            final(self).bits == value,
    {
        self.bits = value;
    }

    fn get(&self, mask: u8) -> (r: bool)
        ensures
            r == (self.bits & mask != 0),
    {
        self.bits & mask != 0
    }

    fn put(&mut self, mask: u8, on: bool)
        ensures
            final(self).bits == with_flag(old(self).bits, mask, on),
    {
        if on {
            self.bits = self.bits | mask;
        } else {
            self.bits = self.bits & !mask;
        }
    }

    /// Carry.
    pub fn c(&self) -> (r: bool)
        ensures
            r == (self.bits & FLAG_C != 0),
    {
        self.get(FLAG_C)
    }

    /// Zero.
    pub fn z(&self) -> (r: bool)
        ensures
            r == (self.bits & FLAG_Z != 0),
    {
        self.get(FLAG_Z)
    }

    /// Interrupt disable.
    pub fn i(&self) -> (r: bool)
        ensures
            r == (self.bits & FLAG_I != 0),
    {
        self.get(FLAG_I)
    }

    /// Decimal mode.
    pub fn d(&self) -> (r: bool)
        ensures
            r == (self.bits & FLAG_D != 0),
    {
        self.get(FLAG_D)
    }

    /// Break.
    pub fn b(&self) -> (r: bool)
        ensures
            r == (self.bits & FLAG_B != 0),
    {
        self.get(FLAG_B)
    }

    /// Overflow.
    pub fn v(&self) -> (r: bool)
        ensures
            r == (self.bits & FLAG_V != 0),
    {
        self.get(FLAG_V)
    }

    /// Negative.
    pub fn n(&self) -> (r: bool)
        ensures
            r == (self.bits & FLAG_N != 0),
    {
        self.get(FLAG_N)
    }

    /// Sets or clears the carry.
    pub fn set_c(&mut self, on: bool)
        ensures
            final(self).bits == with_flag(old(self).bits, FLAG_C, on),
    {
        self.put(FLAG_C, on);
    }

    /// Sets or clears zero.
    pub fn set_z(&mut self, on: bool)
        ensures
            final(self).bits == with_flag(old(self).bits, FLAG_Z, on),
    {
        self.put(FLAG_Z, on);
    }

    /// Sets or clears interrupt disable.
    pub fn set_i(&mut self, on: bool)
        ensures
            final(self).bits == with_flag(old(self).bits, FLAG_I, on),
    {
        self.put(FLAG_I, on);
    }

    /// Sets or clears decimal mode.
    pub fn set_d(&mut self, on: bool)
        ensures
            final(self).bits == with_flag(old(self).bits, FLAG_D, on),
    {
        self.put(FLAG_D, on);
    }

    /// Sets or clears break.
    pub fn set_b(&mut self, on: bool)
        ensures
            final(self).bits == with_flag(old(self).bits, FLAG_B, on),
    {
        self.put(FLAG_B, on);
    }

    /// Sets or clears overflow.
    pub fn set_v(&mut self, on: bool)
        ensures
            final(self).bits == with_flag(old(self).bits, FLAG_V, on),
    {
        self.put(FLAG_V, on);
    }

    /// Sets or clears negative.
    pub fn set_n(&mut self, on: bool)
        ensures
            final(self).bits == with_flag(old(self).bits, FLAG_N, on),
    {
        self.put(FLAG_N, on);
    }
}

} // verus!
