use vstd::prelude::*;
use crate::apu::envelope::{Envelope, envelope_clocked};
use crate::apu::{length_table, length_for};

verus! {

/// The 8-step duty sequences: 12.5%, 25%, 50% and 25% negated.
pub open spec fn duty_table() -> Seq<Seq<u8>> {
    seq![
        seq![0u8, 1, 0, 0, 0, 0, 0, 0],
        seq![0u8, 1, 1, 0, 0, 0, 0, 0],
        seq![0u8, 1, 1, 1, 1, 0, 0, 0],
        seq![1u8, 0, 0, 1, 1, 1, 1, 1],
    ]
}

fn duty_step(duty: u8, pos: usize) -> (r: u8)
    requires
        duty < 4,
        pos < 8,
    ensures
        r == duty_table()[duty as int][pos as int],
{
    let table: [[u8; 8]; 4] = [
        [0, 1, 0, 0, 0, 0, 0, 0],
        [0, 1, 1, 0, 0, 0, 0, 0],
        [0, 1, 1, 1, 1, 0, 0, 0],
        [1, 0, 0, 1, 1, 1, 1, 1],
    ];
    assert(table@[0]@ =~= duty_table()[0]);
    assert(table@[1]@ =~= duty_table()[1]);
    assert(table@[2]@ =~= duty_table()[2]);
    assert(table@[3]@ =~= duty_table()[3]);
    table[duty as usize][pos]
}

/// A pulse (square wave) channel: $4000-$4003 or $4004-$4007.
#[derive(Clone, Copy, Debug)]
pub struct Pulse {
    /// Duty, loop, constant volume, volume.
    pub reg_ctrl: u8,
    pub reg_sweep: u8,
    pub reg_timer_lo: u8,
    /// Length counter load, timer high.
    pub reg_timer_hi: u8,
    /// The 11-bit period.
    pub timer: u16,
    pub timer_counter: u16,
    /// Position in the duty cycle (0-7).
    pub duty_pos: usize,
    /// The channel is silent at 0.
    pub length_counter: u8,
    pub envelope: Envelope,
    pub sweep_reload: bool,
    pub sweep_counter: u8,
    pub sweep_enabled: bool,
    pub sweep_negate: bool,
    pub sweep_period: u8,
    pub sweep_shift: u8,
    pub enabled: bool,
}

/// The period the sweep unit aims for: the period plus or minus itself shifted right;
/// pulse 1 subtracts one more (ones' complement), wrapping below zero.
pub open spec fn sweep_target(timer: u16, shift: u8, negate: bool, is_pulse1: bool) -> u16 {
    let change = timer >> shift;
    if negate {
        let t = (timer - change) as u16;
        if is_pulse1 { (if t == 0 { 0xffffu16 } else { (t - 1) as u16 }) } else { t }
    } else {
        (timer + change) as u16
    }
}

/// The channel after one sweep clock: when the divider is at 0 and the sweep is enabled
/// with a non-zero shift, the period moves to the target unless the channel is muted
/// (target above $7FF or period 8); the divider then reloads (also on a pending reload)
/// or counts down.
pub open spec fn pulse_swept(p: Pulse, is_pulse1: bool) -> Pulse {
    let target = sweep_target(p.timer, p.sweep_shift, p.sweep_negate, is_pulse1);
    let mute = target > 0x7ff || p.timer == 8;
    let reload = p.sweep_counter == 0 || p.sweep_reload;
    Pulse {
        timer: if p.sweep_counter == 0 && p.sweep_enabled && !mute && p.sweep_shift > 0 { target } else { p.timer },
        sweep_counter: if reload { p.sweep_period } else { (p.sweep_counter - 1) as u8 },
        sweep_reload: if reload { false } else { p.sweep_reload },
        ..p
    }
}

/// The channel after one clock of its timer: when the timer runs out it reloads and the
/// duty position advances; else it counts down.
pub open spec fn pulse_timer_clocked(p: Pulse) -> Pulse {
    if p.timer_counter == 0 {
        Pulse { timer_counter: p.timer, duty_pos: ((p.duty_pos + 1) % 8) as usize, ..p }
    } else {
        Pulse { timer_counter: (p.timer_counter - 1) as u16, ..p }
    }
}

impl Pulse {
    /// An 11-bit period, a 3-bit shift, a duty position inside the sequence and a
    /// 4-bit envelope volume.
    pub open spec fn wf(self) -> bool {
        self.timer <= 0x7ff && self.sweep_shift < 8 && self.duty_pos < 8 && self.envelope.volume <= 15
    }

    pub fn new() -> (r: Self)
        ensures
            r.wf(),
            r.timer == 0 && r.timer_counter == 0 && r.duty_pos == 0 && r.length_counter == 0,
            !r.enabled && r.reg_ctrl == 0 && r.sweep_shift == 0 && !r.sweep_enabled,
            r.envelope == (Envelope { start: false, volume: 0, counter: 0 }),
    {
        Pulse {
            reg_ctrl: 0,
            reg_sweep: 0,
            reg_timer_lo: 0,
            reg_timer_hi: 0,
            timer: 0,
            timer_counter: 0,
            duty_pos: 0,
            length_counter: 0,
            envelope: Envelope::new(),
            sweep_reload: false,
            sweep_counter: 0,
            sweep_enabled: false,
            sweep_negate: false,
            sweep_period: 0,
            sweep_shift: 0,
            enabled: false,
        }
    }

    /// The timer counts down; when it runs out it reloads and the duty position advances.
    pub fn clock_timer(&mut self)
        requires
            old(self).wf(),
        ensures
            final(self).wf(),
            *final(self) == pulse_timer_clocked(*old(self)),
    {
        if self.timer_counter == 0 {
            self.timer_counter = self.timer;
            self.duty_pos = (self.duty_pos + 1) % 8;
        } else {
            self.timer_counter = self.timer_counter - 1;
        }
    }

    pub fn clock_envelope(&mut self)
        requires
            old(self).wf(),
        ensures
            final(self).wf(),
            *final(self) == (Pulse { envelope: envelope_clocked(old(self).envelope, old(self).reg_ctrl), ..*old(self) }),
    {
        self.envelope.clock(self.reg_ctrl);
    }

    /// One sweep clock: when the divider is at 0 and the sweep is enabled with a non-zero
    /// shift, the period moves to the target unless the channel is muted (target above
    /// $7FF or period 8); the divider then reloads (also on a pending reload) or counts down.
    pub fn clock_sweep(&mut self, is_pulse1: bool)
        requires
            old(self).wf(),
        ensures
            final(self).wf(),
            *final(self) == pulse_swept(*old(self), is_pulse1),
    {
        let change = self.timer >> self.sweep_shift;
        proof {
            crate::bit_facts::lemma_u16_shr_le();
        }
        let target = if self.sweep_negate {
            let t = self.timer - change;
            if is_pulse1 { t.wrapping_sub(1) } else { t }
        } else {
            self.timer + change
        };
        let mute = target > 0x7ff || self.timer == 8;
        if self.sweep_counter == 0 && self.sweep_enabled && !mute && self.sweep_shift > 0 {
            self.timer = target;
        }
        if self.sweep_counter == 0 || self.sweep_reload {
            self.sweep_counter = self.sweep_period;
            self.sweep_reload = false;
        } else {
            self.sweep_counter = self.sweep_counter - 1;
        }
    }

    /// The level of the channel.
    pub open spec fn output_spec(self) -> u8 {
        if !self.enabled || self.length_counter == 0 || self.timer < 8
            || duty_table()[((self.reg_ctrl >> 6) & 0x03) as int][self.duty_pos as int] == 0 {
            0
        } else if self.reg_ctrl & 0x10 != 0 {
            self.reg_ctrl & 0x0F
        } else {
            self.envelope.volume
        }
    }

    /// The level of the channel: 0 when disabled, silenced by its length counter, at a
    /// period below 8, or at a low step of its duty; else the constant volume or the
    /// envelope's volume.
    pub fn output(&self) -> (r: u8)
        requires
            self.wf(),
        ensures
            r == self.output_spec(),
            r <= 15,
    {
        proof {
            crate::bit_facts::lemma_u8_masks();
        }
        if !self.enabled || self.length_counter == 0 || self.timer < 8 {
            return 0;
        }
        let duty = (self.reg_ctrl >> 6) & 0x03;
        proof {
            crate::bit_facts::lemma_u8_masks();
        }
        let duty_out = duty_step(duty, self.duty_pos);
        if duty_out == 0 {
            return 0;
        }
        // Constant volume or envelope
        if self.reg_ctrl & 0x10 != 0 {
            self.reg_ctrl & 0x0F
        } else {
            self.envelope.volume()
        }
    }

    /// A write to the sweep register: enable, period, negate and shift, with a reload.
    pub fn sweep_control(&mut self, val: u8)
        requires
            old(self).wf(),
        ensures
            final(self).wf(),
            *final(self) == (Pulse {
                reg_sweep: val,
                sweep_enabled: (val & 0x80) != 0,
                sweep_period: (val >> 4u8) & 0x07,
                sweep_negate: (val & 0x08) != 0,
                sweep_shift: val & 0x07,
                sweep_reload: true,
                ..*old(self)
            }),
    {
        proof {
            crate::bit_facts::lemma_u8_masks();
        }
        self.reg_sweep = val;
        self.sweep_enabled = (val & 0x80) != 0;
        self.sweep_period = (val >> 4u8) & 0x07;
        self.sweep_negate = (val & 0x08) != 0;
        self.sweep_shift = val & 0x07;
        self.sweep_reload = true;
    }

    /// A write to the length/timer-high register: the high period bits, the length
    /// counter (when enabled), a restart of the duty sequence and of the envelope.
    pub fn set_timer_high(&mut self, val: u8)
        requires
            old(self).wf(),
        ensures
            final(self).wf(),
            *final(self) == (Pulse {
                reg_timer_hi: val,
                timer: (old(self).timer & 0xFF) | (((val as u16) & 0x07) << 8u16),
                length_counter: if old(self).enabled { length_table()[(val >> 3u8) as int] }
                    else { old(self).length_counter },
                duty_pos: 0,
                envelope: Envelope { start: true, ..old(self).envelope },
                ..*old(self)
            }),
    {
        proof {
            crate::bit_facts::lemma_u16_masks();
            crate::bit_facts::lemma_timer_bits(self.timer, val);
        }
        self.reg_timer_hi = val;
        self.timer = (self.timer & 0xFF) | (((val as u16) & 0x07) << 8u16);
        if self.enabled {
            self.length_counter = length_for((val >> 3u8) as usize);
        }
        self.duty_pos = 0;
        self.envelope.set_start(true);
    }

    /// A write to one of the four registers of the channel (`address & 3`).
    pub fn set(&mut self, address: u16, val: u8)
        requires
            old(self).wf(),
        ensures
            final(self).wf(),
            address & 3 == 0 ==> *final(self) == (Pulse { reg_ctrl: val, ..*old(self) }),
            address & 3 == 2 ==> *final(self) == (Pulse {
                reg_timer_lo: val,
                timer: (old(self).timer & 0x700) | (val as u16),
                ..*old(self)
            }),
    {
        proof {
            crate::bit_facts::lemma_timer_bits(self.timer, val);
        }
        let a = address & 0x03;
        if a == 0 {
            self.reg_ctrl = val;
        } else if a == 1 {
            self.sweep_control(val);
        } else if a == 2 {
            self.reg_timer_lo = val;
            self.timer = (self.timer & 0x700) | (val as u16);
        } else {
            self.set_timer_high(val);
        }
    }

    /// Enabling or disabling the channel; disabling clears its length counter.
    pub fn set_enabled(&mut self, enabled: bool)
        requires
            old(self).wf(),
        ensures
            final(self).wf(),
            *final(self) == (Pulse {
                enabled,
                length_counter: if enabled { old(self).length_counter } else { 0 },
                ..*old(self)
            }),
    {
        self.enabled = enabled;
        if !enabled {
            self.length_counter = 0;
        }
    }
}

impl Pulse {
    /// A half-frame clock of the length counter: it counts down unless it is 0 or held by the loop flag.
    pub fn clock_length(&mut self)
        requires
            old(self).wf(),
        ensures
            final(self).wf(),
            *final(self) == crate::apu::pulse_length_clocked(*old(self)),
    {
        if self.length_counter > 0 && (self.reg_ctrl & 0x20) == 0 {
            self.length_counter = self.length_counter - 1;
        }
    }
}

impl Default for Pulse {
    fn default() -> (r: Self)
        ensures
            r.wf(),
            r.timer == 0 && r.length_counter == 0 && !r.enabled,
    {
        Pulse::new()
    }
}

/// The duty steps at which a pulse is high: one step in eight (12.5%), two (25%), four
/// (50%), or all but those two (25% negated).
pub open spec fn duty_high(duty: u8, pos: int) -> bool {
    if duty == 0 {
        pos == 1
    } else if duty == 1 {
        pos == 1 || pos == 2
    } else if duty == 2 {
        1 <= pos <= 4
    } else {
        !(pos == 1 || pos == 2)
    }
}

/// Law: a pulse channel is silent while disabled, silenced by its length counter, at a
/// period below 8, or at a low step of its duty cycle; at a high step it plays the volume
/// of bits 0-3 of its control register when bit 4 (constant volume) is set, and the
/// envelope's volume when it is clear.
pub proof fn lemma_pulse_level(p: Pulse)
    requires
        p.wf(),
    ensures
        ({
            let duty = ((p.reg_ctrl >> 6u8) & 3) as u8;
            let sounding = p.enabled && p.length_counter > 0 && p.timer >= 8
                && duty_high(duty, p.duty_pos as int);
            &&& !sounding ==> p.output_spec() == 0
            &&& sounding && p.reg_ctrl & 0x10 != 0 ==> p.output_spec() == p.reg_ctrl % 16
            &&& sounding && p.reg_ctrl & 0x10 == 0 ==> p.output_spec() == p.envelope.volume
        }),
{
    let c = p.reg_ctrl;
    let duty = ((c >> 6u8) & 3) as u8;
    crate::bit_facts::lemma_u8_fields();
    assert(duty < 4 && c & 0x0F == c % 16);
    let table = duty_table();
    assert(table[duty as int][p.duty_pos as int] != 0 <==> duty_high(duty, p.duty_pos as int));
}

/// Law: the sweep target moves the period by `c`, the period shifted right by the sweep
/// shift: up adds `c`; down subtracts `c` on pulse 2 and `c` plus one on
/// pulse 1 (ones' complement), pulse 1 wrapping to $FFFF when that goes below zero.
pub proof fn lemma_sweep_target(timer: u16, shift: u8, negate: bool, is_pulse1: bool)
    ensures
        ({
            let c = (timer >> shift) as int;
            let r = sweep_target(timer, shift, negate, is_pulse1) as int;
            &&& c <= timer
            &&& !negate && timer + c < 0x10000 ==> r == timer + c
            &&& negate && !is_pulse1 ==> r == timer - c
            &&& negate && is_pulse1 && c < timer ==> r == timer - c - 1
            &&& negate && is_pulse1 && c == timer ==> r == 0xffff
        }),
{
    crate::bit_facts::lemma_u16_shr_le();
    assert((timer >> shift) <= timer);
}


} // verus!
