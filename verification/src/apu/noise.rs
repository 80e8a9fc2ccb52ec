use vstd::prelude::*;
use crate::apu::envelope::{Envelope, envelope_clocked};
use crate::apu::{length_table, length_for};

verus! {

/// The noise timer periods selected by the low nibble of $400E.
pub open spec fn noise_period_table() -> Seq<u16> {
    seq![4u16, 8, 16, 32, 64, 96, 128, 160, 202, 254, 380, 508, 762, 1016, 2034, 4068]
}

pub fn noise_period(index: usize) -> (r: u16)
    requires
        index < 16,
    ensures
        r == noise_period_table()[index as int],
{
    let table: [u16; 16] = [4, 8, 16, 32, 64, 96, 128, 160, 202, 254, 380, 508, 762, 1016, 2034, 4068];
    assert(table@ =~= noise_period_table());
    table[index]
}

/// The 15-bit shift register after one step: feedback is bit 0 exclusive-or bit 6 (mode
/// set) or bit 1, the register shifts right and the feedback enters at bit 14.
pub open spec fn noise_shifted(shift_reg: u16, mode: bool) -> u16 {
    let bit: u16 = if mode { 6 } else { 1 };
    let feedback = (shift_reg & 1) ^ ((shift_reg >> bit) & 1);
    (shift_reg >> 1u16) | (feedback << 14u16)
}

/// The noise channel: $400C-$400F.
#[derive(Clone, Copy, Debug)]
pub struct Noise {
    pub reg_ctrl: u8,
    pub reg_period: u8,
    pub reg_length: u8,
    /// The 15-bit shift register.
    pub shift_reg: u16,
    pub timer: u16,
    pub timer_counter: u16,
    pub length_counter: u8,
    pub envelope: Envelope,
    /// Feedback from bit 6 (set) or bit 1.
    pub mode: bool,
    pub enabled: bool,
}

/// The channel after one clock of its timer: when the timer runs out it reloads and the
/// shift register shifts with its feedback bit; else it counts down.
pub open spec fn noise_timer_clocked(n: Noise) -> Noise {
    if n.timer_counter == 0 {
        Noise { timer_counter: n.timer, shift_reg: noise_shifted(n.shift_reg, n.mode), ..n }
    } else {
        Noise { timer_counter: (n.timer_counter - 1) as u16, ..n }
    }
}

impl Noise {
    /// A silent channel whose shift register holds 1.
    pub fn new() -> (r: Self)
        ensures
            r.shift_reg == 1,
            r.timer == 0 && r.timer_counter == 0 && r.length_counter == 0,
            !r.enabled && !r.mode && r.reg_ctrl == 0,
    {
        Noise {
            reg_ctrl: 0,
            reg_period: 0,
            reg_length: 0,
            shift_reg: 1,
            timer: 0,
            timer_counter: 0,
            length_counter: 0,
            envelope: Envelope::new(),
            mode: false,
            enabled: false,
        }
    }

    pub fn clock_envelope(&mut self)
        ensures
            *final(self) == (Noise { envelope: envelope_clocked(old(self).envelope, old(self).reg_ctrl), ..*old(self) }),
    {
        self.envelope.clock(self.reg_ctrl);
    }

    /// The level of the channel.
    pub open spec fn output_spec(self) -> u8 {
        if !self.enabled || self.length_counter == 0 || (self.shift_reg & 1) != 0 {
            0
        } else if (self.reg_ctrl & 0x10) != 0 {
            self.reg_ctrl & 0xf
        } else {
            self.envelope.volume
        }
    }

    /// The level of the channel: 0 when disabled, silenced or when bit 0 of the shift
    /// register is set; else the constant volume or the envelope's volume.
    pub fn output(&self) -> (r: u8)
        ensures
            r == self.output_spec(),
    {
        if !self.enabled || self.length_counter == 0 || (self.shift_reg & 1) != 0 {
            return 0;
        }
        if (self.reg_ctrl & 0x10) != 0 {
            self.reg_ctrl & 0xf
        } else {
            self.envelope.volume()
        }
    }

    /// The timer counts down; when it runs out it reloads and the shift register steps.
    pub fn clock_timer(&mut self)
        ensures
            *final(self) == noise_timer_clocked(*old(self)),
    {
        if self.timer_counter == 0 {
            self.timer_counter = self.timer;
            let bit: u16 = if self.mode { 6 } else { 1 };
            let feedback = (self.shift_reg & 1) ^ ((self.shift_reg >> bit) & 1);
            self.shift_reg = (self.shift_reg >> 1u16) | (feedback << 14u16);
        } else {
            self.timer_counter = self.timer_counter - 1;
        }
    }

    /// A write to $400C, $400E or $400F (`address & 3`): envelope control, mode and
    /// period, or the length counter with an envelope restart.
    pub fn set(&mut self, address: u16, val: u8)
        ensures
            address & 3 == 0 ==> *final(self) == (Noise { reg_ctrl: val, ..*old(self) }),
            address & 3 == 1 ==> *final(self) == *old(self),
            address & 3 == 2 ==> *final(self) == (Noise {
                reg_period: val,
                mode: (val & 0x80) != 0,
                timer: noise_period_table()[(val & 0x0f) as int],
                ..*old(self)
            }),
            address & 3 == 3 ==> *final(self) == (Noise {
                reg_length: val,
                length_counter: if old(self).enabled { length_table()[(val >> 3u8) as int] }
                    else { old(self).length_counter },
                envelope: Envelope { start: true, ..old(self).envelope },
                ..*old(self)
            }),
    {
        proof {
            crate::bit_facts::lemma_u8_masks();
            crate::bit_facts::lemma_timer_bits(0, val);
        }
        let a = address & 0x03;
        if a == 0 {
            self.reg_ctrl = val;
        } else if a == 2 {
            self.reg_period = val;
            self.mode = (val & 0x80) != 0;
            self.timer = noise_period((val & 0x0f) as usize);
        } else if a == 3 {
            self.reg_length = val;
            if self.enabled {
                self.length_counter = length_for((val >> 3u8) as usize);
            }
            self.envelope.set_start(true);
        }
    }

    /// A half-frame clock of the length counter: it counts down unless it is 0 or held by
    /// the loop flag.
    pub fn clock_length(&mut self)
        ensures
            *final(self) == crate::apu::noise_length_clocked(*old(self)),
    {
        if self.length_counter > 0 && (self.reg_ctrl & 0x20) == 0 {
            self.length_counter = self.length_counter - 1;
        }
    }

    /// Enabling or disabling the channel; disabling clears its length counter.
    pub fn set_enabled(&mut self, enabled: bool)
        ensures
            *final(self) == (Noise {
                enabled,
                length_counter: if enabled { old(self).length_counter } else { 0 },
                ..*old(self)
            }),
    {
        self.enabled = enabled;
        if !enabled {
            self.length_counter = 0;
        }
    }
}

/// Law: the noise channel is silent while disabled, silenced by its length counter, or
/// while bit 0 of its shift register is set; otherwise it plays the volume of bits 0-3 of
/// its control register when bit 4 (constant volume) is set, and the envelope's volume when
/// it is clear.
pub proof fn lemma_noise_level(n: Noise)
    ensures
        ({
            let sounding = n.enabled && n.length_counter > 0 && n.shift_reg % 2 == 0;
            let constant = (n.reg_ctrl / 16) % 2 == 1;
            &&& !sounding ==> n.output_spec() == 0
            &&& sounding && constant ==> n.output_spec() == n.reg_ctrl % 16
            &&& sounding && !constant ==> n.output_spec() == n.envelope.volume
        }),
{
    let c: u8 = n.reg_ctrl;
    let r: u16 = n.shift_reg;
    crate::bit_facts::lemma_u8_fields();
    crate::bit_facts::lemma_word_fields();
    assert(c & 0x10 == 16 * ((c / 16) % 2) && c & 0xf == c % 16 && r & 1 == r % 2);
}


} // verus!
