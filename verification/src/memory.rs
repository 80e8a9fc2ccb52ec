use vstd::prelude::*;

verus! {

/// A 64 KB CPU address space.
pub trait Memory: Sized {
    /// What every access of the address space keeps.
    spec fn inv(&self) -> bool;

    /// A read of `address` in `self` gives `value` and leaves `after`.
    spec fn reads(&self, after: Self, address: u16, value: u8) -> bool;

    /// A write of `value` to `address` in `self` leaves `after`.
    spec fn writes(&self, after: Self, address: u16, value: u8) -> bool;

    /// A CPU read, with the side effects that reading a register has.
    fn get(&mut self, address: u16) -> (r: u8)
        requires
            old(self).inv(),
        ensures
            final(self).inv(),
            old(self).reads(*final(self), address, r);

    /// A CPU write, with the side effects that writing a register has.
    fn set(&mut self, address: u16, value: u8)
        requires
            old(self).inv(),
        ensures
            final(self).inv(),
            old(self).writes(*final(self), address, value);

    /// Stores `value` without the side effects of a register write.
    fn set_force(&mut self, address: u16, value: u8)
        requires
            old(self).inv(),
        ensures
            final(self).inv();

    /// Reads the byte stored at `address` without the side effects of a register read.
    fn get_direct(&mut self, address: u16) -> (r: u8)
        requires
            old(self).inv(),
        ensures
            final(self).inv();

    /// A copy of the RAM behind the address space.
    fn main_memory(&mut self) -> (r: Vec<u8>)
        requires
            old(self).inv(),
        ensures
            final(self).inv();
}

} // verus!
