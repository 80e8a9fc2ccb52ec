use vstd::prelude::*;

verus! {

/// The volume envelope of the pulse and noise channels.
#[derive(Clone, Copy, Debug)]
pub struct Envelope {
    pub start: bool,
    pub volume: u8,
    pub counter: u8,
}

/// The envelope after one clock with control register `reg_ctrl`: a start restarts it at
/// volume 15; otherwise the divider counts down and, when it runs out, reloads from the
/// low nibble and the volume decays (looping back to 15 when bit 5 is set).
pub open spec fn envelope_clocked(e: Envelope, reg_ctrl: u8) -> Envelope {
    if e.start {
        Envelope { start: false, volume: 15, counter: reg_ctrl & 0x0F }
    } else if e.counter > 0 {
        Envelope { counter: (e.counter - 1) as u8, ..e }
    } else {
        Envelope {
            counter: reg_ctrl & 0x0F,
            volume: if e.volume > 0 {
                (e.volume - 1) as u8
            } else if reg_ctrl & 0x20 != 0 {
                15
            } else {
                e.volume
            },
            ..e
        }
    }
}

impl Envelope {
    pub fn new() -> (r: Self)
        ensures
            r == (Envelope { start: false, volume: 0, counter: 0 }),
    {
        Envelope { start: false, volume: 0, counter: 0 }
    }

    pub fn clock(&mut self, reg_ctrl: u8)
        ensures
            *final(self) == envelope_clocked(*old(self), reg_ctrl),
    {
        if self.start {
            self.start = false;
            self.volume = 15;
            self.counter = reg_ctrl & 0x0F;
        } else {
            if self.counter > 0 {
                self.counter = self.counter - 1;
            } else {
                self.counter = reg_ctrl & 0x0F;
                if self.volume > 0 {
                    self.volume = self.volume - 1;
                } else if (reg_ctrl & 0x20) != 0 {
                    self.volume = 15;
                }
            }
        }
    }

    pub fn volume(&self) -> (r: u8)
        ensures
            r == self.volume,
    {
        self.volume
    }

    pub fn set_start(&mut self, v: bool)
        ensures
            *final(self) == (Envelope { start: v, ..*old(self) }),
    {
        self.start = v;
    }
}

impl Default for Envelope {
    fn default() -> (r: Self)
        ensures
            r == (Envelope { start: false, volume: 0, counter: 0 }),
    {
        Envelope::new()
    }
}

/// Law: an envelope clock restarts a started envelope at volume 15 with its divider at the
/// low nibble `n` of the control register; otherwise a running divider counts down with the
/// volume kept, and an expired one reloads with `n` while the volume decays by one, and at
/// volume 0 loops back to 15 when bit 5 of the control register is set or stays at 0.
pub proof fn lemma_envelope_clock(e: Envelope, reg_ctrl: u8)
    ensures
        ({
            let r = envelope_clocked(e, reg_ctrl);
            let n = reg_ctrl % 16;
            &&& e.start ==> !r.start && r.volume == 15 && r.counter == n
            &&& !e.start && e.counter > 0 ==> r.volume == e.volume && r.counter == e.counter - 1
            &&& !e.start && e.counter == 0 && e.volume > 0 ==> r.volume == e.volume - 1 && r.counter == n
            &&& !e.start && e.counter == 0 && e.volume == 0 ==> r.counter == n
                && r.volume == (if (reg_ctrl / 32) % 2 == 1 { 15int } else { 0 })
        }),
{
    crate::bit_facts::lemma_u8_fields();
    assert(reg_ctrl & 0x0F == reg_ctrl % 16 && reg_ctrl & 0x20 == 32 * ((reg_ctrl / 32) % 2));
}


} // verus!
