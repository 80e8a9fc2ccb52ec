use vstd::prelude::*;
use crate::apu::{length_table, length_for};

verus! {

/// The 32-step triangle sequence.
pub open spec fn triangle_table() -> Seq<u8> {
    seq![15u8, 14, 13, 12, 11, 10, 9, 8, 7, 6, 5, 4, 3, 2, 1, 0,
        0, 1, 2, 3, 4, 5, 6, 7, 8, 9, 10, 11, 12, 13, 14, 15]
}

fn triangle_step(pos: usize) -> (r: u8)
    requires
        pos < 32,
    ensures
        r == triangle_table()[pos as int],
{
    let table: [u8; 32] = [15, 14, 13, 12, 11, 10, 9, 8, 7, 6, 5, 4, 3, 2, 1, 0,
        0, 1, 2, 3, 4, 5, 6, 7, 8, 9, 10, 11, 12, 13, 14, 15];
    assert(table@ =~= triangle_table());
    table[pos]
}

/// The triangle channel: $4008-$400B.
#[derive(Clone, Copy, Debug)]
pub struct Triangle {
    pub reg_ctrl: u8,
    pub reg_timer_lo: u8,
    pub reg_timer_hi: u8,
    pub timer: u16,
    pub timer_counter: u16,
    /// Position in the 32-step sequence.
    pub sequence_pos: usize,
    pub length_counter: u8,
    pub linear_counter: u8,
    pub linear_reload: bool,
    pub control_flag: bool,
    pub enabled: bool,
}

/// The channel after a linear counter clock: it reloads on a pending reload, else counts
/// down; the reload flag clears unless the control flag holds it.
pub open spec fn linear_clocked(t: Triangle) -> Triangle {
    Triangle {
        linear_counter: if t.linear_reload {
            t.reg_ctrl & 0x7f
        } else if t.linear_counter > 0 {
            (t.linear_counter - 1) as u8
        } else {
            t.linear_counter
        },
        linear_reload: if !t.control_flag { false } else { t.linear_reload },
        ..t
    }
}

/// The channel after a write of `val` to $400B: the high period bits, the length counter
/// (when the channel is enabled) and a pending linear counter reload.
pub open spec fn timer_high_written(t: Triangle, val: u8) -> Triangle {
    Triangle {
        reg_timer_hi: val,
        timer: (t.timer & 0xff) | (((val as u16) & 0x07) << 8u16),
        length_counter: if t.enabled { length_table()[(val >> 3u8) as int] } else { t.length_counter },
        linear_reload: true,
        ..t
    }
}

/// The channel after one CPU cycle of its timer: when the timer runs out it reloads and,
/// while both counters are non-zero, the sequence advances; else it counts down.
pub open spec fn triangle_stepped(t: Triangle) -> Triangle {
    if t.timer_counter == 0 {
        Triangle {
            timer_counter: t.timer,
            sequence_pos: if t.length_counter > 0 && t.linear_counter > 0 {
                ((t.sequence_pos + 1) % 32) as usize
            } else {
                t.sequence_pos
            },
            ..t
        }
    } else {
        Triangle { timer_counter: (t.timer_counter - 1) as u16, ..t }
    }
}

impl Triangle {
    pub open spec fn wf(self) -> bool {
        self.sequence_pos < 32 && self.timer <= 0x7ff
    }

    pub fn new() -> (r: Self)
        ensures
            r.wf(),
            r.timer == 0 && r.sequence_pos == 0 && r.length_counter == 0 && r.linear_counter == 0,
            !r.enabled && !r.control_flag && !r.linear_reload,
    {
        Triangle {
            reg_ctrl: 0,
            reg_timer_lo: 0,
            reg_timer_hi: 0,
            timer: 0,
            timer_counter: 0,
            sequence_pos: 0,
            length_counter: 0,
            linear_counter: 0,
            linear_reload: false,
            control_flag: false,
            enabled: false,
        }
    }

    /// A write to $4008, $400A or $400B (`address & 3`).
    pub fn set(&mut self, address: u16, val: u8)
        requires
            old(self).wf(),
        ensures
            final(self).wf(),
            address & 3 == 0 ==> *final(self) == (Triangle {
                reg_ctrl: val,
                control_flag: (val & 0x80) != 0,
                ..*old(self)
            }),
            address & 3 == 1 ==> *final(self) == *old(self),
            address & 3 == 2 ==> *final(self) == (Triangle {
                reg_timer_lo: val,
                timer: (old(self).timer & 0x700) | (val as u16),
                ..*old(self)
            }),
            address & 3 == 3 ==> *final(self) == timer_high_written(*old(self), val),
    {
        proof {
            crate::bit_facts::lemma_timer_bits(self.timer, val);
        }
        let a = address & 0x03;
        if a == 0 {
            self.reg_ctrl = val;
            self.control_flag = (val & 0x80) != 0;
        } else if a == 2 {
            self.reg_timer_lo = val;
            self.timer = (self.timer & 0x700) | val as u16;
        } else if a == 3 {
            self.set_timer_high(val);
        }
    }

    /// One CPU cycle: the timer counts down; when it runs out it reloads and, while both
    /// counters are non-zero, the sequence advances.
    pub fn step(&mut self)
        requires
            old(self).wf(),
        ensures
            final(self).wf(),
            *final(self) == triangle_stepped(*old(self)),
    {
        if self.timer_counter == 0 {
            self.timer_counter = self.timer;
            if self.length_counter > 0 && self.linear_counter > 0 {
                self.sequence_pos = (self.sequence_pos + 1) % 32;
            }
        } else {
            self.timer_counter = self.timer_counter - 1;
        }
    }

    /// The linear counter reloads on a pending reload, else counts down; the reload flag
    /// clears unless the control flag holds it.
    pub fn clock_linear_counter(&mut self)
        ensures
            *final(self) == linear_clocked(*old(self)),
    {
        if self.linear_reload {
            self.linear_counter = self.reg_ctrl & 0x7f;
        } else if self.linear_counter > 0 {
            self.linear_counter = self.linear_counter - 1;
        }
        if !self.control_flag {
            self.linear_reload = false;
        }
    }

    /// The level of the channel.
    pub open spec fn output_spec(self) -> u8 {
        if !self.enabled || self.length_counter == 0 || self.linear_counter == 0 { 0 }
            else { triangle_table()[self.sequence_pos as int] }
    }

    pub fn output(&self) -> (r: u8)
        requires
            self.wf(),
        ensures
            r == self.output_spec(),
    {
        if !self.enabled || self.length_counter == 0 || self.linear_counter == 0 {
            0
        } else {
            triangle_step(self.sequence_pos)
        }
    }

    /// A write to $400B: the high period bits, the length counter (when enabled) and a
    /// linear counter reload.
    pub fn set_timer_high(&mut self, val: u8)
        requires
            old(self).wf(),
        ensures
            final(self).wf(),
            *final(self) == timer_high_written(*old(self), val),
    {
        proof {
            crate::bit_facts::lemma_timer_bits(self.timer, val);
        }
        self.reg_timer_hi = val;
        self.timer = (self.timer & 0xff) | (((val as u16) & 0x07) << 8u16);
        if self.enabled {
            self.length_counter = length_for((val >> 3u8) as usize);
        }
        self.linear_reload = true;
    }

    /// Enabling or disabling the channel; disabling clears its length counter.
    pub fn set_enabled(&mut self, enabled: bool)
        ensures
            *final(self) == (Triangle {
                enabled,
                length_counter: if enabled { old(self).length_counter } else { 0 },
                ..*old(self)
            }),
    {
        self.enabled = enabled;
        if !enabled {
            self.length_counter = 0;
        }
    }
}

impl Triangle {
    /// A half-frame clock of the length counter: it counts down unless it is 0 or held by the control flag.
    pub fn clock_length(&mut self)
        requires
            old(self).wf(),
        ensures
            final(self).wf(),
            *final(self) == crate::apu::triangle_length_clocked(*old(self)),
    {
        if self.length_counter > 0 && !self.control_flag {
            self.length_counter = self.length_counter - 1;
        }
    }
}

impl Default for Triangle {
    fn default() -> (r: Self)
        ensures
            r.wf(),
            r.length_counter == 0 && !r.enabled,
    {
        Triangle::new()
    }
}

/// Law: the triangle channel is silent while disabled or while its length counter or
/// linear counter is zero; otherwise its level walks down from 15 to 0 over the first
/// sixteen steps of the sequence and back up from 0 to 15 over the last sixteen.
pub proof fn lemma_triangle_level(t: Triangle)
    requires
        t.wf(),
    ensures
        ({
            let sounding = t.enabled && t.length_counter > 0 && t.linear_counter > 0;
            let pos = t.sequence_pos as int;
            &&& !sounding ==> t.output_spec() == 0
            &&& sounding && pos < 16 ==> t.output_spec() == 15 - pos
            &&& sounding && pos >= 16 ==> t.output_spec() == pos - 16
        }),
{
    let table = triangle_table();
    assert(forall|i: int| 0 <= i < 16 ==> #[trigger] table[i] == 15 - i);
    assert(forall|i: int| 16 <= i < 32 ==> #[trigger] table[i] == i - 16);
}


} // verus!
