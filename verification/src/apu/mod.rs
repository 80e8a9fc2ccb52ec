use vstd::prelude::*;
use crate::apu::dmc::{Dmc, reader_stepped, timer_stepped};
use crate::apu::envelope::envelope_clocked;
use crate::apu::noise::{Noise, noise_timer_clocked};
use crate::apu::pulse::{Pulse, pulse_swept, pulse_timer_clocked};
use crate::apu::triangle::{Triangle, linear_clocked, triangle_stepped};
use crate::nes_memory::NesMemory;
use crate::memory::Memory;

pub mod envelope;
pub mod pulse;
pub mod triangle;
pub mod noise;
pub mod dmc;

verus! {

/// The length counter values selected by bits 7-3 of a length load.
pub open spec fn length_table() -> Seq<u8> {
    seq![10u8, 254, 20, 2, 40, 4, 80, 6, 160, 8, 60, 10, 14, 12, 26, 14,
        12, 16, 24, 18, 48, 20, 96, 22, 192, 24, 72, 26, 16, 28, 32, 30]
}

pub fn length_for(index: usize) -> (r: u8)
    requires
        index < 32,
    ensures
        r == length_table()[index as int],
{
    let table: [u8; 32] = [10, 254, 20, 2, 40, 4, 80, 6, 160, 8, 60, 10, 14, 12, 26, 14,
        12, 16, 24, 18, 48, 20, 96, 22, 192, 24, 72, 26, 16, 28, 32, 30];
    assert(table@ =~= length_table());
    table[index]
}

/// The sequencer of the frame counter.
#[derive(Clone, Copy, Debug, PartialEq, Eq, Structural)]
pub enum FrameCounterMode {
    Step4,
    Step5,
}

/// What the frame counter clocks when it reaches `counter`: (envelopes and linear counter,
/// length counters and sweeps, end of sequence).
pub open spec fn frame_events(mode: FrameCounterMode, counter: int) -> (bool, bool, bool) {
    if counter == 3729 {
        (true, false, false)
    } else if counter == 7457 {
        (true, true, false)
    } else if counter == 11186 {
        (true, false, false)
    } else if counter == 14915 {
        if mode == FrameCounterMode::Step4 { (true, true, true) } else { (false, false, false) }
    } else if counter == 18641 && mode == FrameCounterMode::Step5 {
        (true, true, true)
    } else {
        (false, false, false)
    }
}

/// A pulse channel's length counter after a half-frame clock (held by the loop flag).
pub open spec fn pulse_length_clocked(p: Pulse) -> Pulse {
    if p.length_counter > 0 && (p.reg_ctrl & 0x20) == 0 {
        Pulse { length_counter: (p.length_counter - 1) as u8, ..p }
    } else {
        p
    }
}

/// A pulse channel after the frame counter's clocks.
pub open spec fn pulse_framed(p: Pulse, env: bool, len: bool, is_pulse1: bool) -> Pulse {
    let p1 = if env { Pulse { envelope: envelope_clocked(p.envelope, p.reg_ctrl), ..p } } else { p };
    if len { pulse_swept(pulse_length_clocked(p1), is_pulse1) } else { p1 }
}

/// The triangle channel's length counter after a half-frame clock (held by the control flag).
pub open spec fn triangle_length_clocked(t: Triangle) -> Triangle {
    if t.length_counter > 0 && !t.control_flag {
        Triangle { length_counter: (t.length_counter - 1) as u8, ..t }
    } else {
        t
    }
}

/// The triangle channel after the frame counter's clocks.
pub open spec fn triangle_framed(t: Triangle, env: bool, len: bool) -> Triangle {
    let t1 = if env { linear_clocked(t) } else { t };
    if len { triangle_length_clocked(t1) } else { t1 }
}

/// The noise channel's length counter after a half-frame clock (held by the loop flag).
pub open spec fn noise_length_clocked(n: Noise) -> Noise {
    if n.length_counter > 0 && (n.reg_ctrl & 0x20) == 0 {
        Noise { length_counter: (n.length_counter - 1) as u8, ..n }
    } else {
        n
    }
}

/// The noise channel after the frame counter's clocks.
pub open spec fn noise_framed(n: Noise, env: bool, len: bool) -> Noise {
    let n1 = if env { Noise { envelope: envelope_clocked(n.envelope, n.reg_ctrl), ..n } } else { n };
    if len { noise_length_clocked(n1) } else { n1 }
}

/// The APU after one clock of its frame counter: the counter counts up and, at the steps
/// of its sequence, clocks envelopes and the linear counter, then length counters and
/// sweeps; the end of the 4-step sequence raises the frame IRQ when enabled, and 5-step
/// mode disables the IRQ.
pub open spec fn frame_clocked(a: Apu) -> Apu {
    let c = a.frame_counter + 1;
    let (env, len, wrap) = frame_events(a.frame_counter_mode, c);
    let step4 = a.frame_counter_mode == FrameCounterMode::Step4;
    Apu {
        frame_counter: if wrap { 0 } else { c as u32 },
        frame_counter_irq: if step4 && wrap && a.irq_enabled { true } else { a.frame_counter_irq },
        irq_enabled: if step4 { a.irq_enabled } else { false },
        pulse1: pulse_framed(a.pulse1, env, len, true),
        pulse2: pulse_framed(a.pulse2, env, len, false),
        triangle: triangle_framed(a.triangle, env, len),
        noise: noise_framed(a.noise, env, len),
        ..a
    }
}

/// The APU after one CPU cycle in which the DMC's memory reader, if it fetches, gets
/// `byte`: the cycle count goes up, the triangle timer and the DMC step every cycle, and
/// on every other cycle (an APU cycle) the frame counter and then the pulse and noise
/// timers are clocked.
pub open spec fn apu_stepped(a: Apu, byte: u8) -> Apu {
    let c = (a.cycle_count + 1) as u64;
    let a1 = Apu {
        cycle_count: c,
        triangle: triangle_stepped(a.triangle),
        dmc: timer_stepped(reader_stepped(a.dmc, byte)),
        ..a
    };
    if c % 2 == 0 {
        let a2 = frame_clocked(a1);
        Apu {
            pulse1: pulse_timer_clocked(a2.pulse1),
            pulse2: pulse_timer_clocked(a2.pulse2),
            noise: noise_timer_clocked(a2.noise),
            ..a2
        }
    } else {
        a1
    }
}

/// The audio processing unit's channels, frame counter and status, without the mixer.
#[derive(Clone, Copy, Debug)]
pub struct Apu {
    pub pulse1: Pulse,
    pub pulse2: Pulse,
    pub triangle: Triangle,
    pub noise: Noise,
    pub dmc: Dmc,
    pub frame_counter_mode: FrameCounterMode,
    pub frame_counter: u32,
    pub irq_enabled: bool,
    pub frame_counter_irq: bool,
    pub cycle_count: u64,
    pub gui_pulse1_enabled: bool,
    pub gui_pulse2_enabled: bool,
    pub gui_triangle_enabled: bool,
    pub gui_noise_enabled: bool,
    pub gui_dmc_enabled: bool,
}

impl Apu {
    /// The channels are well formed and the frame counter is inside its sequence.
    pub open spec fn wf(self) -> bool {
        &&& self.pulse1.wf()
        &&& self.pulse2.wf()
        &&& self.triangle.wf()
        &&& self.dmc.wf()
        &&& self.frame_counter < 18641
        &&& self.frame_counter_mode == FrameCounterMode::Step4 ==> self.frame_counter < 14915
    }

    /// Silent channels, 4-step mode with the frame IRQ enabled, every channel audible.
    pub fn new() -> (r: Self)
        ensures
            r.wf(),
            r.frame_counter_mode == FrameCounterMode::Step4,
            r.frame_counter == 0 && r.cycle_count == 0,
            r.irq_enabled && !r.frame_counter_irq,
            r.gui_pulse1_enabled && r.gui_pulse2_enabled && r.gui_triangle_enabled
                && r.gui_noise_enabled && r.gui_dmc_enabled,
    {
        Apu {
            pulse1: Pulse::new(),
            pulse2: Pulse::new(),
            triangle: Triangle::new(),
            noise: Noise::new(),
            dmc: Dmc::new(),
            frame_counter_mode: FrameCounterMode::Step4,
            frame_counter: 0,
            irq_enabled: true,
            frame_counter_irq: false,
            cycle_count: 0,
            gui_pulse1_enabled: true,
            gui_pulse2_enabled: true,
            gui_triangle_enabled: true,
            gui_noise_enabled: true,
            gui_dmc_enabled: true,
        }
    }

    fn clock_length_counters(&mut self)
        requires
            old(self).wf(),
        ensures
            final(self).wf(),
            *final(self) == (Apu {
                pulse1: pulse_length_clocked(old(self).pulse1),
                pulse2: pulse_length_clocked(old(self).pulse2),
                triangle: triangle_length_clocked(old(self).triangle),
                noise: noise_length_clocked(old(self).noise),
                ..*old(self)
            }),
    {
        self.pulse1.clock_length();
        self.pulse2.clock_length();
        self.triangle.clock_length();
        self.noise.clock_length();
    }

    /// The quarter-frame and half-frame clocks of the channels.
    fn clock_channels(&mut self, env: bool, len: bool)
        requires
            old(self).wf(),
        ensures
            final(self).wf(),
            *final(self) == (Apu {
                pulse1: pulse_framed(old(self).pulse1, env, len, true),
                pulse2: pulse_framed(old(self).pulse2, env, len, false),
                triangle: triangle_framed(old(self).triangle, env, len),
                noise: noise_framed(old(self).noise, env, len),
                ..*old(self)
            }),
    {
        if env {
            self.pulse1.clock_envelope();
            self.pulse2.clock_envelope();
            self.noise.clock_envelope();
            self.triangle.clock_linear_counter();
        }
        if len {
            self.clock_length_counters();
            self.pulse1.clock_sweep(true);
            self.pulse2.clock_sweep(false);
        }
    }

    /// One APU cycle of the frame counter: it counts up and, at the steps of its sequence,
    /// clocks envelopes and the linear counter, then length counters and sweeps; the end of
    /// the 4-step sequence raises the frame IRQ when enabled. 5-step mode disables the IRQ.
    #[verifier::rlimit(50)]
    pub fn clock_frame_counter(&mut self)
        requires
            old(self).wf(),
        ensures
            final(self).wf(),
            *final(self) == frame_clocked(*old(self)),
    {
        let c = self.frame_counter + 1;
        let (clock_env, clock_len, wrap) = Self::frame_step(self.frame_counter_mode, c);
        self.frame_counter = if wrap { 0 } else { c };
        if self.frame_counter_mode == FrameCounterMode::Step4 {
            // 4-step mode (60 Hz): the end of the sequence raises the frame IRQ.
            if wrap && self.irq_enabled {
                self.frame_counter_irq = true;
            }
        } else {
            // 5-step mode (48 Hz / 192 Hz) has no frame IRQ.
            self.irq_enabled = false;
        }
        self.clock_channels(clock_env, clock_len);
    }

    /// The clocks of the frame sequence at count `counter`: quarter frames at 3729, 7457,
    /// 11186 and 14915 (4-step) or 18641 (5-step), half frames at 7457 and the last step.
    fn frame_step(mode: FrameCounterMode, counter: u32) -> (r: (bool, bool, bool))
        ensures
            r == frame_events(mode, counter as int),
    {
        if counter == 3729 {
            (true, false, false)
        } else if counter == 7457 {
            (true, true, false)
        } else if counter == 11186 {
            (true, false, false)
        } else if counter == 14915 {
            if mode == FrameCounterMode::Step4 { (true, true, true) } else { (false, false, false) }
        } else if counter == 18641 && mode == FrameCounterMode::Step5 {
            (true, true, true)
        } else {
            (false, false, false)
        }
    }

    /// One CPU cycle: the triangle timer and the DMC every cycle; the frame counter, the
    /// pulse and noise timers every other cycle. Returns whether the DMC requests an IRQ.
    #[verifier::rlimit(50)]
    pub fn step(&mut self, memory: &mut NesMemory) -> (r: bool)
        requires
            old(self).wf(),
            old(memory).wf(),
            old(self).cycle_count < u64::MAX,
        ensures
            final(self).wf(),
            final(memory).wf(),
            exists|byte: u8| {
                &&& #[trigger] apu_stepped(*old(self), byte) == *final(self)
                &&& old(self).dmc.dma_delay == 1 ==>
                    old(memory).reads(*final(memory), old(self).dmc.current_address, byte)
            },
            final(self).cycle_count == old(self).cycle_count + 1,
            r == (final(self).dmc.irq_enabled && final(self).dmc.irq_flag),
            old(self).dmc.dma_delay != 1 || old(self).dmc.current_address >= 0x8000 ==> *final(memory) == *old(memory),
    {
        self.cycle_count = self.cycle_count + 1;
        // The triangle timer clocks every CPU cycle.
        self.triangle.step();
        // The DMC steps at its own rate.
        let ghost before_dmc = self.dmc;
        let result = self.dmc.step(memory);
        let ghost byte = choose|byte: u8| {
            &&& #[trigger] timer_stepped(reader_stepped(before_dmc, byte)) == self.dmc
            &&& before_dmc.dma_delay == 1 ==>
                old(memory).reads(*memory, before_dmc.current_address, byte)
        };
        // Pulse and noise timers clock every other CPU cycle (APU cycle).
        if self.cycle_count % 2 == 0 {
            self.clock_frame_counter();
            self.pulse1.clock_timer();
            self.pulse2.clock_timer();
            self.noise.clock_timer();
        }
        assert(apu_stepped(*old(self), byte) == *self);
        result
    }

    /// The levels of the five channels (pulse 1, pulse 2, triangle, noise, DMC), 0 for a
    /// channel muted in the user interface.
    pub fn channel_outputs(&self) -> (r: (u8, u8, u8, u8, u8))
        requires
            self.wf(),
        ensures
            r.0 == (if self.gui_pulse1_enabled { self.pulse1.output_spec() } else { 0 }),
            r.1 == (if self.gui_pulse2_enabled { self.pulse2.output_spec() } else { 0 }),
            r.2 == (if self.gui_triangle_enabled { self.triangle.output_spec() } else { 0 }),
            r.3 == (if self.gui_noise_enabled { self.noise.output_spec() } else { 0 }),
            r.4 == (if self.gui_dmc_enabled { self.dmc.output } else { 0 }),
    {
        let p1 = if self.gui_pulse1_enabled { self.pulse1.output() } else { 0 };
        let p2 = if self.gui_pulse2_enabled { self.pulse2.output() } else { 0 };
        let triangle = if self.gui_triangle_enabled { self.triangle.output() } else { 0 };
        let noise = if self.gui_noise_enabled { self.noise.output() } else { 0 };
        let dmc = if self.gui_dmc_enabled { self.dmc.output() } else { 0 };
        (p1, p2, triangle, noise, dmc)
    }

    /// A CPU write to an APU register: the channel registers, the channel enables ($4015)
    /// and the frame counter ($4017, which resets the sequence and, in 5-step mode,
    /// clocks every unit at once).
    pub fn set(&mut self, addr: u16, val: u8)
        requires
            old(self).wf(),
        ensures
            final(self).wf(),
            0x4000 <= addr <= 0x4003 ==> *final(self) == (Apu { pulse1: final(self).pulse1, ..*old(self) }),
            0x4004 <= addr <= 0x4007 ==> *final(self) == (Apu { pulse2: final(self).pulse2, ..*old(self) }),
            0x4008 <= addr <= 0x400b ==> *final(self) == (Apu { triangle: final(self).triangle, ..*old(self) }),
            0x400c <= addr <= 0x400f ==> *final(self) == (Apu { noise: final(self).noise, ..*old(self) }),
            0x4010 <= addr <= 0x4013 ==> *final(self) == (Apu { dmc: final(self).dmc, ..*old(self) }),
            addr == 0x4015 ==> *final(self) == (Apu {
                pulse1: final(self).pulse1, pulse2: final(self).pulse2, triangle: final(self).triangle,
                noise: final(self).noise, dmc: final(self).dmc, ..*old(self)
            }) && final(self).pulse1.enabled == (val & 0x01 != 0)
                && final(self).pulse2.enabled == (val & 0x02 != 0)
                && final(self).triangle.enabled == (val & 0x04 != 0)
                && final(self).noise.enabled == (val & 0x08 != 0)
                && (val & 0x01 == 0 ==> final(self).pulse1.length_counter == 0)
                && (val & 0x02 == 0 ==> final(self).pulse2.length_counter == 0)
                && (val & 0x04 == 0 ==> final(self).triangle.length_counter == 0)
                && (val & 0x08 == 0 ==> final(self).noise.length_counter == 0)
                && (val & 0x10 == 0 ==> final(self).dmc.current_length == 0),
            addr == 0x4017 ==> {
                let mode = if (val & 0x80) == 0 { FrameCounterMode::Step4 } else { FrameCounterMode::Step5 };
                let five = mode == FrameCounterMode::Step5;
                *final(self) == (Apu {
                    frame_counter_mode: mode,
                    irq_enabled: (val & 0x40) == 0,
                    frame_counter_irq: if (val & 0x40) == 0 { old(self).frame_counter_irq } else { false },
                    frame_counter: 0,
                    pulse1: pulse_framed(old(self).pulse1, five, five, true),
                    pulse2: pulse_framed(old(self).pulse2, five, five, false),
                    triangle: triangle_framed(old(self).triangle, five, five),
                    noise: noise_framed(old(self).noise, five, five),
                    ..*old(self)
                })
            },
            !(0x4000 <= addr <= 0x4013 || addr == 0x4015 || addr == 0x4017) ==> *final(self) == *old(self),
    {
        if 0x4000 <= addr && addr <= 0x4003 {
            self.pulse1.set(addr, val);
        } else if 0x4004 <= addr && addr <= 0x4007 {
            self.pulse2.set(addr, val);
        } else if 0x4008 <= addr && addr <= 0x400b {
            self.triangle.set(addr, val);
        } else if 0x400c <= addr && addr <= 0x400f {
            self.noise.set(addr, val);
        } else if 0x4010 <= addr && addr <= 0x4013 {
            self.dmc.set(addr, val);
        } else if addr == 0x4015 {
            self.pulse1.set_enabled((val & 0x01) != 0);
            self.pulse2.set_enabled((val & 0x02) != 0);
            self.triangle.set_enabled((val & 0x04) != 0);
            self.noise.set_enabled((val & 0x08) != 0);
            self.dmc.set_enabled((val & 0x10) != 0);
        } else if addr == 0x4017 {
            self.frame_counter_mode = if (val & 0x80) == 0 { FrameCounterMode::Step4 } else { FrameCounterMode::Step5 };
            self.irq_enabled = (val & 0x40) == 0;
            if !self.irq_enabled {
                self.frame_counter_irq = false;
            }
            self.frame_counter = 0;
            // In 5-step mode every unit is clocked at once; 4-step mode only restarts.
            let five = self.frame_counter_mode == FrameCounterMode::Step5;
            self.clock_channels(five, five);
        }
    }

    /// A CPU read of $4015: DMC IRQ, frame IRQ, DMC active and the four length counters;
    /// the read clears the frame IRQ flag and disables the frame IRQ. Other addresses read 0.
    pub fn get(&mut self, addr: u16) -> (r: u8)
        requires
            old(self).wf(),
        ensures
            final(self).wf(),
            addr != 0x4015 ==> r == 0 && *final(self) == *old(self),
            addr == 0x4015 ==> *final(self) == (Apu { frame_counter_irq: false, irq_enabled: false, ..*old(self) })
                && r == (if old(self).pulse1.length_counter > 0 { 0x01u8 } else { 0 })
                    | (if old(self).pulse2.length_counter > 0 { 0x02u8 } else { 0 })
                    | (if old(self).triangle.length_counter > 0 { 0x04u8 } else { 0 })
                    | (if old(self).noise.length_counter > 0 { 0x08u8 } else { 0 })
                    | (if old(self).dmc.current_length > 0 { 0x10u8 } else { 0 })
                    | (if old(self).frame_counter_irq && old(self).irq_enabled { 0x40u8 } else { 0 })
                    | (if old(self).dmc.irq_flag && old(self).irq_enabled { 0x80u8 } else { 0 }),
    {
        let mut result: u8 = 0;
        if addr == 0x4015 {
            // IF-D NT21: DMC interrupt, frame interrupt, DMC active, length counters > 0
            let b0: u8 = if self.pulse1.length_counter > 0 { 0x01 } else { 0 };
            let b1: u8 = if self.pulse2.length_counter > 0 { 0x02 } else { 0 };
            let b2: u8 = if self.triangle.length_counter > 0 { 0x04 } else { 0 };
            let b3: u8 = if self.noise.length_counter > 0 { 0x08 } else { 0 };
            let b4: u8 = if self.dmc.is_active() { 0x10 } else { 0 };
            let b6: u8 = if self.frame_counter_irq && self.irq_enabled { 0x40 } else { 0 };
            let b7: u8 = if self.dmc.irq_flag && self.irq_enabled { 0x80 } else { 0 };
            result = b0 | b1 | b2 | b3 | b4 | b6 | b7;
            // Reading the status clears the frame IRQ flag.
            self.frame_counter_irq = false;
            self.irq_enabled = false;
        }
        result
    }

    pub fn set_irq_enabled(&mut self, enabled: bool)
        ensures
            *final(self) == (Apu { irq_enabled: enabled, ..*old(self) }),
    {
        self.irq_enabled = enabled;
    }

    pub fn set_pulse1_enabled(&mut self, enabled: bool)
        ensures
            *final(self) == (Apu { gui_pulse1_enabled: enabled, ..*old(self) }),
    {
        self.gui_pulse1_enabled = enabled;
    }

    pub fn set_pulse2_enabled(&mut self, enabled: bool)
        ensures
            *final(self) == (Apu { gui_pulse2_enabled: enabled, ..*old(self) }),
    {
        self.gui_pulse2_enabled = enabled;
    }

    pub fn set_triangle_enabled(&mut self, enabled: bool)
        ensures
            *final(self) == (Apu { gui_triangle_enabled: enabled, ..*old(self) }),
    {
        self.gui_triangle_enabled = enabled;
    }

    pub fn set_noise_enabled(&mut self, enabled: bool)
        ensures
            *final(self) == (Apu { gui_noise_enabled: enabled, ..*old(self) }),
    {
        self.gui_noise_enabled = enabled;
    }

    pub fn set_dmc_enabled(&mut self, enabled: bool)
        ensures
            *final(self) == (Apu { gui_dmc_enabled: enabled, ..*old(self) }),
    {
        self.gui_dmc_enabled = enabled;
    }
}

/// Law: a half-frame clock takes one from a non-zero length counter unless it is halted:
/// by bit 5 of the control register for the pulse and noise channels, by the control flag
/// for the triangle channel; a halted or zero counter stays.
pub proof fn lemma_length_halt(p: Pulse, t: Triangle, n: Noise)
    ensures
        pulse_length_clocked(p).length_counter == (if p.length_counter > 0 && (p.reg_ctrl / 32) % 2 == 0 {
            p.length_counter - 1
        } else {
            p.length_counter as int
        }),
        triangle_length_clocked(t).length_counter == (if t.length_counter > 0 && !t.control_flag {
            t.length_counter - 1
        } else {
            t.length_counter as int
        }),
        noise_length_clocked(n).length_counter == (if n.length_counter > 0 && (n.reg_ctrl / 32) % 2 == 0 {
            n.length_counter - 1
        } else {
            n.length_counter as int
        }),
{
    crate::bit_facts::lemma_u8_fields();
    assert(p.reg_ctrl & 0x20 == 32 * ((p.reg_ctrl / 32) % 2) && n.reg_ctrl & 0x20 == 32 * ((n.reg_ctrl / 32) % 2));
}


} // verus!
