use vstd::prelude::*;
use crate::memory::Memory;
use crate::nes_memory::NesMemory;

verus! {

/// NTSC DMC rates: CPU cycles between output steps.
pub open spec fn rate_table() -> Seq<u16> {
    seq![428u16, 380, 340, 320, 286, 254, 226, 214, 190, 160, 142, 128, 106, 84, 72, 54]
}

fn rate_for(index: usize) -> (r: u16)
    requires
        index < 16,
    ensures
        r == rate_table()[index as int],
{
    let table: [u16; 16] = [428, 380, 340, 320, 286, 254, 226, 214, 190, 160, 142, 128, 106, 84, 72, 54];
    assert(table@ =~= rate_table());
    table[index]
}

/// The delta modulation channel: $4010-$4013.
#[derive(Clone, Copy, Debug)]
pub struct Dmc {
    pub irq_enabled: bool,
    pub loop_enabled: bool,
    pub rate_index: usize,
    pub rate: u16,
    pub current_rate: u16,
    /// The 7-bit output level.
    pub output: u8,
    pub sample_address: u16,
    pub sample_length: u16,
    pub current_address: u16,
    pub current_length: u16,
    /// The sample byte waiting for the output unit.
    pub sample_buffer: Option<u8>,
    pub shift_register: u8,
    /// 0-8
    pub bits_remaining: u8,
    pub silence_flag: bool,
    /// Cycles left before a sample fetch completes.
    pub dma_delay: u8,
    pub irq_flag: bool,
}

/// The reader after a fetch of `byte` completes: the byte is buffered, the address moves
/// on (wrapping from $FFFF to $8000) and the length counts down; at the end the sample
/// restarts when looping, or raises the IRQ flag when enabled.
pub open spec fn sample_fetched(d: Dmc, byte: u8) -> Dmc {
    let length = (d.current_length - 1) as u16;
    let address = if d.current_address == 0xFFFF { 0x8000u16 } else { (d.current_address + 1) as u16 };
    let d1 = Dmc { sample_buffer: Some(byte), current_address: address, current_length: length, ..d };
    if length == 0 {
        if d.loop_enabled {
            Dmc { current_address: d.sample_address, current_length: d.sample_length, ..d1 }
        } else if d.irq_enabled {
            Dmc { irq_flag: true, ..d1 }
        } else {
            d1
        }
    } else {
        d1
    }
}

/// The memory reader of one cycle, `byte` being what a completing fetch reads: a pending
/// fetch counts down and completes at 0; an empty buffer with bytes left starts a fetch
/// that completes 3 cycles later.
pub open spec fn reader_stepped(d: Dmc, byte: u8) -> Dmc {
    if d.dma_delay > 0 {
        let d1 = Dmc { dma_delay: (d.dma_delay - 1) as u8, ..d };
        if d1.dma_delay == 0 { sample_fetched(d1, byte) } else { d1 }
    } else if d.sample_buffer is None && d.current_length > 0 {
        Dmc { dma_delay: 3, ..d }
    } else {
        d
    }
}

/// The timer and output unit of one cycle: the timer counts down; when it runs out it
/// reloads, the output level moves by 2 in the direction of the next bit (within 0..127)
/// unless silenced, and after 8 bits the buffered sample (if any) is loaded.
pub open spec fn timer_stepped(d: Dmc) -> Dmc {
    if d.current_rate > 0 {
        Dmc { current_rate: (d.current_rate - 1) as u16, ..d }
    } else {
        let output = if d.silence_flag {
            d.output
        } else if d.shift_register & 1 == 1 {
            if d.output <= 125 { (d.output + 2) as u8 } else { d.output }
        } else {
            if d.output >= 2 { (d.output - 2) as u8 } else { d.output }
        };
        let bits = if d.bits_remaining > 0 { (d.bits_remaining - 1) as u8 } else { 0u8 };
        let d1 = Dmc { current_rate: d.rate, output, shift_register: d.shift_register >> 1u8,
            bits_remaining: bits, ..d };
        if bits == 0 {
            match d.sample_buffer {
                Some(v) => Dmc { bits_remaining: 8, shift_register: v, silence_flag: false,
                    sample_buffer: None, ..d1 },
                None => Dmc { bits_remaining: 8, silence_flag: true, ..d1 },
            }
        } else {
            d1
        }
    }
}

impl Dmc {
    /// A 7-bit level, a rate from the table, a bit count of at most 8, and a pending
    /// fetch only while bytes are left.
    pub open spec fn wf(self) -> bool {
        &&& self.output <= 127
        &&& self.rate_index < 16
        &&& self.bits_remaining <= 8
        &&& self.dma_delay > 0 ==> self.current_length > 0
    }

    pub fn new() -> (r: Self)
        ensures
            r.wf(),
            r.current_length == 0 && r.dma_delay == 0 && r.output == 0 && !r.irq_flag && !r.irq_enabled,
            r.sample_buffer is None,
    {
        Dmc {
            irq_enabled: false,
            loop_enabled: false,
            rate_index: 0,
            rate: 0,
            current_rate: 0,
            output: 0,
            sample_address: 0,
            sample_length: 0,
            current_address: 0,
            current_length: 0,
            sample_buffer: None,
            shift_register: 0,
            bits_remaining: 0,
            silence_flag: false,
            dma_delay: 0,
            irq_flag: false,
        }
    }

    /// A write to $4010-$4013 (`address & 3`): flags and rate, direct output level, sample
    /// address ($C000 + 64 * A) or sample length (16 * L + 1).
    pub fn set(&mut self, address: u16, val: u8)
        requires
            old(self).wf(),
        ensures
            final(self).wf(),
            address & 3 == 0 ==> *final(self) == (Dmc {
                irq_enabled: (val & 0x80) != 0,
                irq_flag: if (val & 0x80) != 0 { old(self).irq_flag } else { false },
                loop_enabled: (val & 0x40) != 0,
                rate_index: (val & 0x0F) as usize,
                rate: rate_table()[(val & 0x0F) as int],
                ..*old(self)
            }),
            address & 3 == 1 ==> *final(self) == (Dmc { output: val & 0x7F, ..*old(self) }),
            address & 3 == 2 ==> *final(self) == (Dmc { sample_address: 0xC000 | ((val as u16) << 6u16), ..*old(self) }),
            address & 3 == 3 ==> *final(self) == (Dmc { sample_length: ((val as u16) << 4u16) | 1, ..*old(self) }),
    {
        proof {
            crate::bit_facts::lemma_u8_masks();
        }
        let a = address & 0x03;
        if a == 0 {
            // $4010 - IL--.RRRR; the timer is not reset.
            self.irq_enabled = (val & 0x80) != 0;
            if !self.irq_enabled {
                self.irq_flag = false;
            }
            self.loop_enabled = (val & 0x40) != 0;
            self.rate_index = (val & 0x0F) as usize;
            self.rate = rate_for(self.rate_index);
        } else if a == 1 {
            // $4011 - -DDD.DDDD
            self.output = val & 0x7F;
        } else if a == 2 {
            // $4012 - sample address %11AAAAAA.AA000000
            self.sample_address = 0xC000 | ((val as u16) << 6u16);
        } else {
            // $4013 - sample length %LLLL.LLLL0001
            self.sample_length = ((val as u16) << 4u16) | 1;
        }
    }

    /// $4015 bit 4: disabling stops the sample; enabling restarts it when it has ended.
    /// Either way the IRQ flag clears.
    pub fn set_enabled(&mut self, enabled: bool)
        requires
            old(self).wf(),
        ensures
            final(self).wf(),
            !enabled ==> *final(self) == (Dmc { current_length: 0, dma_delay: 0, irq_flag: false, ..*old(self) }),
            enabled && old(self).current_length == 0 ==> *final(self) == (Dmc {
                current_address: old(self).sample_address,
                current_length: old(self).sample_length,
                irq_flag: false,
                ..*old(self)
            }),
            enabled && old(self).current_length != 0 ==> *final(self) == (Dmc { irq_flag: false, ..*old(self) }),
    {
        if !enabled {
            self.current_length = 0;
            self.dma_delay = 0;
        } else if self.current_length == 0 {
            self.current_address = self.sample_address;
            self.current_length = self.sample_length;
        }
        self.irq_flag = false;
    }

    fn complete_sample_fetch(&mut self, byte: u8)
        requires
            old(self).current_length > 0,
            old(self).output <= 127 && old(self).rate_index < 16 && old(self).bits_remaining <= 8,
            old(self).dma_delay == 0,
        ensures
            *final(self) == sample_fetched(*old(self), byte),
            final(self).wf(),
    {
        self.sample_buffer = Some(byte);
        if self.current_address == 0xFFFF {
            self.current_address = 0x8000;
        } else {
            self.current_address = self.current_address + 1;
        }
        self.current_length = self.current_length - 1;
        if self.current_length == 0 {
            if self.loop_enabled {
                self.current_address = self.sample_address;
                self.current_length = self.sample_length;
            } else if self.irq_enabled {
                // The IRQ is raised when the last fetch completes.
                self.irq_flag = true;
            }
        }
    }

    fn clock_memory_reader(&mut self, memory: &mut NesMemory) -> (byte: Ghost<u8>)
        requires
            old(self).wf(),
            old(memory).wf(),
        ensures
            final(self).wf(),
            final(memory).wf(),
            *final(self) == reader_stepped(*old(self), byte@),
            old(self).dma_delay == 1 ==> old(memory).reads(*final(memory), old(self).current_address, byte@),
            old(self).dma_delay == 1 && old(self).current_address >= 0x8000 ==>
                byte@ == old(memory).mapper.prg_byte(old(self).current_address)
                && *final(memory) == *old(memory),
            old(self).dma_delay != 1 ==> *final(memory) == *old(memory),
    {
        if self.dma_delay > 0 {
            self.dma_delay = self.dma_delay - 1;
            if self.dma_delay == 0 {
                let byte = memory.get(self.current_address);
                self.complete_sample_fetch(byte);
                return Ghost(byte);
            }
            return Ghost(0u8);
        }
        if self.sample_buffer.is_none() && self.current_length > 0 {
            // The byte becomes available 3 cycles after the fetch starts.
            self.dma_delay = 3;
        }
        Ghost(0u8)
    }

    fn clock_timer(&mut self)
        requires
            old(self).wf(),
        ensures
            final(self).wf(),
            *final(self) == timer_stepped(*old(self)),
    {
        if self.current_rate > 0 {
            self.current_rate = self.current_rate - 1;
        } else {
            self.current_rate = self.rate;
            if !self.silence_flag {
                let bit = self.shift_register & 0x01;
                if bit == 1 {
                    if self.output <= 125 {
                        self.output = self.output + 2;
                    }
                } else {
                    if self.output >= 2 {
                        self.output = self.output - 2;
                    }
                }
            }
            self.shift_register = self.shift_register >> 1u8;
            if self.bits_remaining > 0 {
                self.bits_remaining = self.bits_remaining - 1;
            }
            if self.bits_remaining == 0 {
                self.bits_remaining = 8;
                match self.sample_buffer.take() {
                    Some(val) => {
                        self.shift_register = val;
                        self.silence_flag = false;
                    },
                    None => {
                        self.silence_flag = true;
                    },
                }
            }
        }
    }

    /// One CPU cycle of the channel: the memory reader, then the timer and output unit.
    /// Returns whether the channel requests an IRQ.
    pub fn step(&mut self, memory: &mut NesMemory) -> (r: bool)
        requires
            old(self).wf(),
            old(memory).wf(),
        ensures
            final(self).wf(),
            final(memory).wf(),
            exists|byte: u8| {
                &&& #[trigger] timer_stepped(reader_stepped(*old(self), byte)) == *final(self)
                &&& old(self).dma_delay == 1 ==> old(memory).reads(*final(memory), old(self).current_address, byte)
            },
            old(self).dma_delay != 1 || old(self).current_address >= 0x8000 ==> *final(memory) == *old(memory),
            r == (final(self).irq_enabled && final(self).irq_flag),
    {
        let byte = self.clock_memory_reader(memory);
        self.clock_timer();
        assert(timer_stepped(reader_stepped(*old(self), byte@)) == *self);
        self.irq_enabled && self.irq_flag
    }

    pub fn output(&self) -> (r: u8)
        ensures
            r == self.output,
    {
        self.output
    }

    pub fn is_active(&self) -> (r: bool)
        ensures
            r == (self.current_length > 0),
    {
        self.current_length > 0
    }
}

impl Default for Dmc {
    fn default() -> (r: Self)
        ensures
            r.wf(),
            r.current_length == 0 && r.output == 0,
    {
        Dmc::new()
    }
}

/// Law: one cycle of the channel keeps the output level within 0..127 and moves it by 0
/// or 2; the sample ends (no bytes left) only when its last byte is fetched with looping
/// off (or looping onto an empty sample), and once ended with no fetch pending it stays
/// ended.
pub proof fn lemma_dmc_cycle(d: Dmc, byte: u8)
    requires
        d.output <= 127,
    ensures
        ({
            let e = timer_stepped(reader_stepped(d, byte));
            &&& e.output <= 127
            &&& e.output == d.output || e.output == d.output + 2 || e.output + 2 == d.output
            &&& d.current_length > 0 && e.current_length == 0 ==> d.dma_delay == 1 && d.current_length == 1
                && (!d.loop_enabled || d.sample_length == 0)
            &&& d.current_length == 0 && d.dma_delay == 0 ==> e.current_length == 0
        }),
{
}

/// Law: when the DMC timer runs out and the channel is not silenced, bit 0 of the shift
/// register moves the output level: a 1 raises it by 2 unless that would pass 127, a 0
/// lowers it by 2 unless that would go below 0; otherwise (timer running, or silenced) the
/// level stays.
pub proof fn lemma_dmc_output_step(d: Dmc)
    ensures
        ({
            let e = timer_stepped(d);
            let steps = d.current_rate == 0 && !d.silence_flag;
            &&& !steps ==> e.output == d.output
            &&& steps && d.shift_register % 2 == 1 && d.output + 2 <= 127 ==> e.output == d.output + 2
            &&& steps && d.shift_register % 2 == 1 && d.output + 2 > 127 ==> e.output == d.output
            &&& steps && d.shift_register % 2 == 0 && d.output >= 2 ==> e.output == d.output - 2
            &&& steps && d.shift_register % 2 == 0 && d.output < 2 ==> e.output == d.output
        }),
{
    crate::bit_facts::lemma_u8_fields();
    assert(d.shift_register & 1 == d.shift_register % 2);
}


} // verus!
