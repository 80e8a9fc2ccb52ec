//! A cycle-stepped 6502: each `tick` performs one bus cycle of the current
//! instruction, after https://www.nesdev.org/6502_cpu.txt.
use vstd::prelude::*;
use crate::memory::Memory;
use crate::cpu::opcodes::{
    by_y, flag, group, group_of, last_cycle, read_kind, rmw_kind, rmw_kind_of, store_reg,
    transfer_kind, Group, ReadKind, RmwKind, StoreReg, TransferKind, CPY_IMM, PHP, PLA,
};
use crate::cpu::spec::{
    adc, bit_flags, bump, bus, carry_bit, compare, cycle_access, cycle_effect, fetch_next,
    interrupt_access, interrupt_effect, lemma_effect_progress, lemma_last_cycle, read_op, rmw, sbc,
    stack_at, Access, Core,
};
use crate::cpu::status_flags::{with_flag, with_nz, StatusFlags, FLAG_B, FLAG_C, FLAG_I};
use crate::emulator::CpuInterface;
use crate::nes_memory::NesMemory;

verus! {

pub const CPU2_DEBUG: bool = false;

pub const DEBUG2_ASM: bool = false;

const STACK_ADDRESS: u16 = 0x100;

/// An opcode that is no documented instruction was fetched.
#[derive(Clone, Copy, PartialEq, Eq, Structural, Debug)]
pub struct UnknownOpcode {
    pub opcode: u8,
    /// PC after the opcode.
    pub pc: u16,
}

/// A 6502 and the address space it drives.
pub struct Cpu2<T: Memory> {
    pub memory: T,
    pub a: u8,
    pub x: u8,
    pub y: u8,
    pub _pc: u16,
    pub s: u8,
    pub p: StatusFlags,
    /// 1...7
    pub current_cycle: u8,
    pub cycles: u128,
    pub no_increment: bool,
    pub low_byte: u8,
    pub pointer: u8,
    pub finished: bool,
    pub current_opcode: u8,
    pub current_value: u8,
    pub current_address: u16,
    pub page_crossed: bool,
    /// (low, high)
    pub pending_interrupt: Option<(u16, u16)>,
    pub pc_was_changed: bool,
    pub interrupting: bool,
}

/// The registers at the cycle of the interrupt sequence that a tick performs: cycle 2 of
/// a new sequence between two instructions, else the sequence under way.
pub open spec fn interrupt_state(c: Core) -> Core {
    if c.finished {
        Core { cycle: 2, finished: false, interrupting: true, ..c }
    } else {
        c
    }
}

impl<T: Memory> Cpu2<T> {
    /// The registers and the state of the instruction under way.
    pub open spec fn regs(&self) -> Core {
        Core {
            a: self.a,
            x: self.x,
            y: self.y,
            pc: self._pc,
            s: self.s,
            p: self.p.bits,
            cycle: self.current_cycle,
            cycles: self.cycles,
            no_increment: self.no_increment,
            low_byte: self.low_byte,
            pointer: self.pointer,
            finished: self.finished,
            opcode: self.current_opcode,
            value: self.current_value,
            address: self.current_address,
            page_crossed: self.page_crossed,
            pending: self.pending_interrupt,
            pc_changed: self.pc_was_changed,
            interrupting: self.interrupting,
        }
    }

    /// The address space.
    pub open spec fn bus_state(&self) -> T {
        self.memory
    }

    /// The memory keeps its invariant; an interrupt sequence under way is between its
    /// third and its seventh cycle, with its vector pending; and an instruction under
    /// way is a known one between its second and its last cycle, or an unknown one
    /// that stopped the processor on its first cycle.
    pub open spec fn wf(&self) -> bool {
        &&& self.memory.inv()
        &&& self.current_cycle <= 8
        &&& self.interrupting ==> !self.finished && self.pending_interrupt is Some
            && 3 <= self.current_cycle <= 7
        &&& !self.finished && !self.interrupting ==> {
            let g = group_of(self.current_opcode);
            ||| g == Group::Unknown && self.current_cycle == 1
            ||| g != Group::Unknown && 2 <= self.current_cycle <= last_cycle(g)
        }
        &&& !self.finished && !self.interrupting && self.no_increment ==> group_of(self.current_opcode) == Group::Branch
            && self.current_cycle == 4 && !self.page_crossed
    }

    /// A well-formed processor has a memory that keeps its invariant; and the
    /// invariant rests on the memory's invariant and on the state of the
    /// instruction under way alone.
    pub proof fn lemma_wf_parts(&self, other: &Self)
        ensures
            self.wf() ==> self.bus_state().inv(),
            self.wf() && other.bus_state().inv() && other.regs().cycle == self.regs().cycle
                && other.regs().finished == self.regs().finished && other.regs().opcode == self.regs().opcode
                && other.regs().no_increment == self.regs().no_increment && other.regs().page_crossed
                == self.regs().page_crossed && other.regs().interrupting == self.regs().interrupting
                && (self.regs().pending is Some ==> other.regs().pending is Some) ==> other.wf(),
    {
    }

    /// The registers and the bus make up the whole processor.
    pub proof fn lemma_state_parts(&self, other: &Self)
        ensures
            self.regs() == other.regs() && self.bus_state() == other.bus_state() ==> *self == *other,
    {
    }

    /// The processor is between two instructions.
    pub open spec fn between_instructions(&self) -> bool {
        self.regs().finished
    }

    /// The cycle of the instruction under way.
    pub open spec fn cycle_number(&self) -> u8 {
        self.regs().cycle
    }

    /// One cycle of the interrupt sequence, from `self` to `n`: between two instructions
    /// with an interrupt pending the sequence starts at its cycle 2 (the dummy read at PC);
    /// it pushes PC and P, sets I, reads the vector, and after its cycle 7 the processor is
    /// between instructions at the handler with no interrupt pending.
    pub open spec fn interrupt_tick(&self, n: Self) -> bool {
        let c = interrupt_state(self.regs());
        let low = c.pending.unwrap().0;
        let high = c.pending.unwrap().1;
        exists|v: u8| {
            let d = bump(interrupt_effect(c, v));
            &&& #[trigger] bus(self.bus_state(), interrupt_access(c, low, high), n.bus_state(), v)
            &&& n.regs() == (if d.cycle == 8 {
                Core { cycle: 1, pending: None, interrupting: false, ..d }
            } else {
                d
            })
        }
    }

    /// The opcode at PC is fetched.
    pub open spec fn fetches(&self, n: Self) -> bool {
        exists|v: u8| #[trigger] self.bus_state().reads(n.bus_state(), self.regs().pc, v)
            && n.regs() == fetch_next(self.regs(), v)
    }

    /// What a tick does before the work of the current cycle: between two
    /// instructions, the next opcode is fetched.
    pub open spec fn starts(&self, mid: Self) -> bool {
        if !self.regs().finished {
            mid == *self
        } else {
            self.fetches(mid)
        }
    }

    /// The work of the current cycle, from `self` to `n`, and what the tick
    /// returns: the number of cycles it counts, or the unknown opcode.
    pub open spec fn ends(&self, n: Self, r: Result<u8, UnknownOpcode>) -> bool {
        if group_of(self.regs().opcode) == Group::Unknown {
            n == *self && r == Err::<u8, UnknownOpcode>(
                UnknownOpcode { opcode: self.regs().opcode, pc: self.regs().pc },
            )
        } else {
            exists|v: u8|
                #[trigger] bus(self.bus_state(), cycle_access(self.regs()), n.bus_state(), v) && n.regs() == bump(
                    cycle_effect(self.regs(), v),
                ) && r == Ok::<u8, UnknownOpcode>(
                    if n.regs().no_increment {
                        0
                    } else {
                        1
                    },
                )
        }
    }

    pub fn pc(&self) -> (r: u16)
        ensures
            r == self.regs().pc,
    {
        self._pc
    }

    pub fn set_pc(&mut self, value: u16)
        ensures
            final(self).regs() == (Core { pc: value, ..old(self).regs() }),
            final(self).bus_state() == old(self).bus_state(),
    {
        self._pc = value;
    }

    fn inc_pc(&mut self)
        ensures
            *final(self) == (Cpu2 { _pc: crate::cpu::spec::wadd16(old(self)._pc, 1), ..*old(self) }),
    {
        self._pc = self._pc.wrapping_add(1);
    }

    /// A processor between instructions, PC 0, S 0, P at power-up.
    pub fn new(memory: T) -> (r: Self)
        requires
            memory.inv(),
        ensures
            r.wf(),
            r.bus_state() == memory,
            r.regs() == (Core {
                a: 0,
                x: 0,
                y: 0,
                pc: 0,
                s: 0,
                p: 0x24,
                cycle: 1,
                cycles: 8,
                no_increment: false,
                low_byte: 0,
                pointer: 0,
                finished: true,
                opcode: 0,
                value: 0,
                address: 0,
                page_crossed: false,
                pending: None,
                pc_changed: false,
                interrupting: false,
            }),
    {
        Cpu2 {
            memory,
            a: 0,
            x: 0,
            y: 0,
            _pc: 0,
            s: 0,
            p: StatusFlags::new(),
            current_cycle: 1,
            cycles: 8,
            no_increment: false,
            low_byte: 0,
            pointer: 0,
            finished: true,
            current_opcode: 0,
            current_value: 0,
            current_address: 0,
            page_crossed: false,
            pending_interrupt: None,
            pc_was_changed: false,
            interrupting: false,
        }
    }

    /// An NMI is taken before the next instruction.
    pub fn nmi(&mut self)
        ensures
            final(self).regs() == (Core { pending: Some((0xfffa, 0xfffb)), ..old(self).regs() }),
            final(self).bus_state() == old(self).bus_state(),
            old(self).wf() ==> final(self).wf(),
    {
        self.pending_interrupt = Some((0xfffa, 0xfffb));
    }

    /// An IRQ is taken before the next instruction.
    pub fn irq(&mut self)
        ensures
            final(self).regs() == (Core { pending: Some((0xfffe, 0xffff)), ..old(self).regs() }),
            final(self).bus_state() == old(self).bus_state(),
            old(self).wf() ==> final(self).wf(),
    {
        self.pending_interrupt = Some((0xfffe, 0xffff));
    }

    fn read_bus(&mut self, address: u16) -> (r: u8)
        requires
            old(self).memory.inv(),
        ensures
            final(self).memory.inv(),
            old(self).memory.reads(final(self).memory, address, r),
            final(self).regs() == old(self).regs(),
    {
        self.memory.get(address)
    }

    fn write_bus(&mut self, address: u16, value: u8)
        requires
            old(self).memory.inv(),
        ensures
            final(self).memory.inv(),
            old(self).memory.writes(final(self).memory, address, value),
            final(self).regs() == old(self).regs(),
    {
        self.memory.set(address, value);
    }

    fn set_nz(&mut self, value: u8)
        ensures
            final(self).regs() == (Core { p: with_nz(old(self).p.bits, value), ..old(self).regs() }),
            final(self).memory == old(self).memory,
    {
        self.p.set_z(value == 0);
        self.p.set_n(value & 0x80 != 0);
    }

    fn add(&mut self, v: u8)
        ensures
            final(self).regs() == (Core {
                a: adc(old(self).a, v, old(self).p.bits).0,
                p: adc(old(self).a, v, old(self).p.bits).1,
                ..old(self).regs()
            }),
            final(self).memory == old(self).memory,
    {
        proof {
            crate::bit_facts::lemma_u8_masks();
            crate::cpu::spec::lemma_adc_bits(self.a, v, self.p.bits);
        }
        let carry: u16 = if self.p.c() {
            1
        } else {
            0
        };
        let result: u16 = self.a as u16 + v as u16 + carry;
        // NOTE: Parentheses are important here! Remove them and carry6 is incorrectly calculated
        let carry6: u8 = (self.a & 0x7f) + (v & 0x7f) + carry as u8;
        self.p.set_c(result & 0x100 != 0);
        self.p.set_v(self.p.c() != (carry6 & 0x80 != 0));
        let result2 = result as u8;
        self.set_nz(result2);
        self.a = result2;
    }

    fn sbc(&mut self, v: u8)
        ensures
            final(self).regs() == (Core {
                a: sbc(old(self).a, v, old(self).p.bits).0,
                p: sbc(old(self).a, v, old(self).p.bits).1,
                ..old(self).regs()
            }),
            final(self).memory == old(self).memory,
    {
        if self.p.d() {
            let c: u8 = if !self.p.c() {
                1
            } else {
                0
            };
            let diff: u16 = (self.a as u16).wrapping_sub(v as u16).wrapping_sub(c as u16);
            let mut al: u8 = (self.a & 0x0f).wrapping_sub(v & 0x0f).wrapping_sub(c);
            if al & 0x80 != 0 {
                al = al.wrapping_sub(6);
            }
            let mut ah: u8 = (self.a >> 4).wrapping_sub(v >> 4).wrapping_sub(
                if al & 0x80 != 0 {
                    1
                } else {
                    0
                },
            );
            self.p.set_z((diff & 0xff) == 0);
            self.p.set_n(diff & 0x80 != 0);
            self.p.set_v((self.a ^ v) & (self.a ^ ((diff & 0xff) as u8)) & 0x80 != 0);
            self.p.set_c(diff & 0xff00 == 0);
            if ah & 0x80 != 0 {
                ah = ah.wrapping_sub(6);
            }
            self.a = (ah << 4) | (al & 0x0f);
        } else {
            self.add(v ^ 0xff);
        }
    }

    /// Sets C from `register >= v` and N, Z from the difference.
    fn cmp(&mut self, register: u8, v: u8)
        ensures
            final(self).regs() == (Core { p: compare(old(self).p.bits, register, v), ..old(self).regs() }),
            final(self).memory == old(self).memory,
    {
        self.p.set_c(register >= v);
        self.set_nz(register.wrapping_sub(v));
    }

    /// A read instruction applied to the byte `value`; the instruction completes.
    fn apply_read(&mut self, value: u8)
        ensures
            final(self).regs() == read_op(old(self).regs(), value),
            final(self).memory == old(self).memory,
    {
        match read_kind(self.current_opcode) {
            ReadKind::Lda => {
                self.a = value;
                self.set_nz(value);
            },
            ReadKind::Ldx => {
                self.x = value;
                self.set_nz(value);
            },
            ReadKind::Ldy => {
                self.y = value;
                self.set_nz(value);
            },
            ReadKind::Eor => {
                self.a = self.a ^ value;
                self.set_nz(self.a);
            },
            ReadKind::And => {
                self.a = self.a & value;
                self.set_nz(self.a);
            },
            ReadKind::Ora => {
                self.a = self.a | value;
                self.set_nz(self.a);
            },
            ReadKind::Adc => {
                self.add(value);
                self.set_nz(self.a);
            },
            ReadKind::Sbc => {
                self.sbc(value);
                self.set_nz(self.a);
            },
            ReadKind::Cmp => {
                let a = self.a;
                self.cmp(a, value);
            },
            ReadKind::Cpx => {
                let x = self.x;
                self.cmp(x, value);
            },
            ReadKind::Cpy => {
                let y = self.y;
                self.cmp(y, value);
            },
            ReadKind::Bit => {
                self.p.set_z(value & self.a == 0);
                self.p.set_n(value & 0x80 != 0);
                self.p.set_v(value & 0x40 != 0);
            },
        }
        self.finished = true;
    }

    /// The new byte of a shift, rotation, increment or decrement of `v`,
    /// with C set where the operation sets it.
    fn modify(&mut self, kind: RmwKind, v: u8) -> (r: u8)
        ensures
            r == rmw(kind, v, old(self).p.bits).0,
            final(self).regs() == (Core { p: rmw(kind, v, old(self).p.bits).1, ..old(self).regs() }),
            final(self).memory == old(self).memory,
    {
        let carry: u8 = if self.p.c() {
            1
        } else {
            0
        };
        match kind {
            RmwKind::Asl => {
                self.p.set_c(v & 0x80 != 0);
                v.wrapping_shl(1)
            },
            RmwKind::Lsr => {
                self.p.set_c(v & 1 != 0);
                v >> 1
            },
            RmwKind::Rol => {
                self.p.set_c(v & 0x80 != 0);
                (v << 1) | carry
            },
            RmwKind::Ror => {
                self.p.set_c(v & 1 != 0);
                (v >> 1) | carry << 7
            },
            RmwKind::Inc => v.wrapping_add(1),
            RmwKind::Dec => v.wrapping_sub(1),
        }
    }

    /// The last cycle of a read-modify-write: the new byte is written back.
    fn read_modify_write(&mut self) -> (v: Ghost<u8>)
        requires
            old(self).memory.inv(),
        ensures
            final(self).memory.inv(),
            old(self).memory.writes(final(self).memory, old(self).current_address,
                crate::cpu::spec::rmw_written(old(self).regs())),
            final(self).regs() == crate::cpu::spec::rmw_done(old(self).regs()),
    {
        let kind = rmw_kind(self.current_opcode);
        let value = self.modify(kind, self.current_value);
        self.write_bus(self.current_address, value);
        self.set_nz(value);
        self.finished = true;
        Ghost(0)
    }

    fn push_to_stack(&mut self, a: u8)
        requires
            old(self).memory.inv(),
        ensures
            final(self).memory.inv(),
            old(self).memory.writes(final(self).memory, stack_at(old(self).s), a),
            final(self).regs() == (Core {
                s: crate::cpu::spec::wsub8(old(self).s, 1),
                ..old(self).regs()
            }),
    {
        self.write_bus(STACK_ADDRESS.wrapping_add(self.s as u16), a);
        self.s = self.s.wrapping_sub(1);
    }

    fn pop_stack(&mut self) -> (r: u8)
        requires
            old(self).memory.inv(),
        ensures
            final(self).memory.inv(),
            old(self).memory.reads(
                final(self).memory,
                stack_at(crate::cpu::spec::wadd8(old(self).s, 1)),
                r,
            ),
            final(self).regs() == (Core {
                s: crate::cpu::spec::wadd8(old(self).s, 1),
                ..old(self).regs()
            }),
    {
        self.s = self.s.wrapping_add(1);
        self.read_bus(STACK_ADDRESS.wrapping_add(self.s as u16))
    }

    /// One cycle of the interrupt sequence whose vector is at `low`, `high`.
    fn interrupt_cycle(&mut self, low: u16, high: u16) -> (v: Ghost<u8>)
        requires
            old(self).memory.inv(),
        ensures
            final(self).memory.inv(),
            bus(old(self).memory, interrupt_access(old(self).regs(), low, high), final(self).memory, v@),
            final(self).regs() == interrupt_effect(old(self).regs(), v@),
    {
        match self.current_cycle {
            2 => {
                let r = self.read_bus(self._pc);
                Ghost(r)
            },
            3 => {
                self.push_to_stack(((self._pc & 0xff00) >> 8) as u8);
                self.p.set_b(true);
                Ghost(0)
            },
            4 => {
                self.push_to_stack((self._pc & 0xff) as u8);
                Ghost(0)
            },
            5 => {
                let p = self.p.value();
                self.push_to_stack(p);
                self.p.set_i(true);
                Ghost(0)
            },
            6 => {
                self.low_byte = self.read_bus(low);
                Ghost(self.low_byte)
            },
            7 => {
                let h = self.read_bus(high);
                let high_part = (h as u16) << 8;
                self._pc = self.low_byte as u16 | high_part;
                self.finished = true;
                Ghost(h)
            },
            _ => Ghost(0),
        }
    }


    /// `self` is at a cycle of an instruction of family `g` where work is done.
    pub closed spec fn at(&self, g: Group) -> bool {
        &&& self.memory.inv()
        &&& group_of(self.current_opcode) == g
        &&& 2 <= self.current_cycle <= last_cycle(g)
    }

    /// The work of the current cycle took `self` to `n`, `v` being the byte read.
    pub closed spec fn did_cycle(&self, n: Self, v: u8) -> bool {
        &&& n.memory.inv()
        &&& bus(self.memory, cycle_access(self.regs()), n.memory, v)
        &&& n.regs() == cycle_effect(self.regs(), v)
    }

    /// A tick in the middle of an instruction counts its cycle exactly when
    /// the cycle reads or writes memory.
    pub proof fn lemma_tick_counts_bus_cycles(&self, n: Self, k: u8)
        requires
            self.wf(),
            !self.between_instructions(),
            !self.regs().interrupting,
            self.tick_rel(n, Ok::<u8, UnknownOpcode>(k)),
        ensures
            (k == 1) <==> cycle_access(self.regs()) != Access::Idle,
    {
        let mid = choose|mid: Self| #[trigger] self.starts(mid) && mid.ends(n, Ok::<u8, UnknownOpcode>(k));
        assert(mid == *self);
        let v = choose|v: u8|
            #[trigger] bus(self.bus_state(), cycle_access(self.regs()), n.bus_state(), v) && n.regs() == bump(
                cycle_effect(self.regs(), v),
            ) && Ok::<u8, UnknownOpcode>(k) == Ok::<u8, UnknownOpcode>(
                if n.regs().no_increment {
                    0
                } else {
                    1
                },
            );
        crate::cpu::spec::lemma_counted_cycles_access_memory(self.regs(), v);
    }

    /// A tick of the interrupt sequence counts its cycle and reads or writes memory: the
    /// dummy read at PC, the three pushes, then the two bytes of the vector.
    pub proof fn lemma_interrupt_tick_accesses_bus(&self, n: Self, r: Result<u8, UnknownOpcode>)
        requires
            self.wf(),
            self.in_interrupt(),
            self.tick_rel(n, r),
        ensures
            r == Ok::<u8, UnknownOpcode>(1),
            2 <= interrupt_state(self.regs()).cycle <= 7,
            interrupt_access(interrupt_state(self.regs()), self.regs().pending.unwrap().0,
                self.regs().pending.unwrap().1) != Access::Idle,
    {
    }

    /// The register a store writes.
    fn stored_register(&self) -> (r: u8)
        ensures
            r == crate::cpu::spec::stored(self.regs()),
    {
        match store_reg(self.current_opcode) {
            StoreReg::A => self.a,
            StoreReg::X => self.x,
            StoreReg::Y => self.y,
        }
    }

    /// The index register of an indexed instruction.
    fn index_register(&self) -> (r: u8)
        ensures
            r == crate::cpu::spec::index_of(self.regs()),
    {
        if by_y(self.current_opcode) {
            self.y
        } else {
            self.x
        }
    }

    /// The high byte `high` completes the base address, to which `index` is added.
    fn index_address(&mut self, high: u8, index: u8)
        ensures
            final(self).regs() == crate::cpu::spec::indexed(old(self).regs(), high, index),
            final(self).memory == old(self).memory,
    {
        let old = (high as u16) << 8 | self.low_byte as u16;
        let new = old.wrapping_add(index as u16);
        self.page_crossed = ((old ^ new) & 0xff00) > 0;
        if self.page_crossed {
            self.current_address = new.wrapping_sub(0x100);
        } else {
            self.current_address = new;
        }
    }

    /// The low address byte with `index` added, within its page.
    fn low_plus(&self, index: u8) -> (r: u8)
        ensures
            r == crate::cpu::spec::low_indexed(self.regs(), index),
    {
        ((self.low_byte as u16 + index as u16) & 0xff) as u8
    }

    fn fetch_low(&mut self) -> (v: Ghost<u8>)
        requires
            old(self).memory.inv(),
        ensures
            final(self).memory.inv(),
            old(self).memory.reads(final(self).memory, old(self)._pc, v@),
            final(self).regs() == crate::cpu::spec::low_fetched(old(self).regs(), v@),
    {
        self.low_byte = self.read_bus(self._pc);
        self.inc_pc();
        Ghost(self.low_byte)
    }

    fn fetch_high(&mut self) -> (v: Ghost<u8>)
        requires
            old(self).memory.inv(),
        ensures
            final(self).memory.inv(),
            old(self).memory.reads(final(self).memory, old(self)._pc, v@),
            final(self).regs() == crate::cpu::spec::high_fetched(old(self).regs(), v@),
    {
        let high = self.read_bus(self._pc);
        self.inc_pc();
        self.current_address = (high as u16) << 8 | self.low_byte as u16;
        Ghost(high)
    }

    fn fetch_zp(&mut self) -> (v: Ghost<u8>)
        requires
            old(self).memory.inv(),
        ensures
            final(self).memory.inv(),
            old(self).memory.reads(final(self).memory, old(self)._pc, v@),
            final(self).regs() == crate::cpu::spec::zp_fetched(old(self).regs(), v@),
    {
        let v = self.read_bus(self._pc);
        self.current_address = v as u16;
        self.inc_pc();
        Ghost(v)
    }

    fn cycle_flag(&mut self) -> (v: Ghost<u8>)
        requires
            old(self).at(Group::Flag),
        ensures
            old(self).did_cycle(*final(self), v@),
    {
        reveal(cycle_access);
        reveal(cycle_effect);
        let r = self.read_bus(self._pc);
        let (mask, on) = flag(self.current_opcode);
        if on {
            self.p.bits = self.p.bits | mask;
        } else {
            self.p.bits = self.p.bits & !mask;
        }
        self.finished = true;
        Ghost(r)
    }

    fn cycle_nop(&mut self) -> (v: Ghost<u8>)
        requires
            old(self).at(Group::Nop),
        ensures
            old(self).did_cycle(*final(self), v@),
    {
        reveal(cycle_access);
        reveal(cycle_effect);
        let r = self.read_bus(self._pc);
        self.finished = true;
        Ghost(r)
    }

    fn cycle_rti(&mut self) -> (v: Ghost<u8>)
        requires
            old(self).at(Group::Rti),
        ensures
            old(self).did_cycle(*final(self), v@),
    {
        reveal(cycle_access);
        reveal(cycle_effect);
        match self.current_cycle {
            2 => {
                let r = self.read_bus(self._pc);
                Ghost(r)
            },
            3 => {
                let r = self.read_bus(STACK_ADDRESS + self.s as u16);
                Ghost(r)
            },
            4 => {
                let p = self.pop_stack();
                self.p.set_value(p);
                Ghost(p)
            },
            5 => {
                let pcl = self.pop_stack();
                self._pc = (self._pc & 0xff00) | pcl as u16;
                Ghost(pcl)
            },
            _ => {
                let pch = self.pop_stack();
                self._pc = (self._pc & 0xff) | (pch as u16) << 8;
                self.finished = true;
                Ghost(pch)
            },
        }
    }

    fn cycle_rts(&mut self) -> (v: Ghost<u8>)
        requires
            old(self).at(Group::Rts),
        ensures
            old(self).did_cycle(*final(self), v@),
    {
        reveal(cycle_access);
        reveal(cycle_effect);
        match self.current_cycle {
            2 => {
                let r = self.read_bus(self._pc);
                Ghost(r)
            },
            3 => {
                let r = self.read_bus(STACK_ADDRESS + self.s as u16);
                Ghost(r)
            },
            4 => {
                let pcl = self.pop_stack();
                self._pc = (self._pc & 0xff00) | pcl as u16;
                Ghost(pcl)
            },
            5 => {
                let pch = self.pop_stack();
                self._pc = (self._pc & 0xff) | (pch as u16) << 8;
                Ghost(pch)
            },
            _ => {
                let r = self.read_bus(self._pc);
                self._pc = self._pc.wrapping_add(1);
                self.finished = true;
                Ghost(r)
            },
        }
    }

    fn cycle_push(&mut self) -> (v: Ghost<u8>)
        requires
            old(self).at(Group::Push),
        ensures
            old(self).did_cycle(*final(self), v@),
    {
        reveal(cycle_access);
        reveal(cycle_effect);
        if self.current_cycle == 2 {
            let r = self.read_bus(self._pc);
            Ghost(r)
        } else {
            let value = if self.current_opcode == PHP {
                self.p.set_b(true);
                self.p.value()
            } else {
                self.a
            };
            self.push_to_stack(value);
            self.finished = true;
            Ghost(0)
        }
    }

    fn cycle_pull(&mut self) -> (v: Ghost<u8>)
        requires
            old(self).at(Group::Pull),
        ensures
            old(self).did_cycle(*final(self), v@),
    {
        reveal(cycle_access);
        reveal(cycle_effect);
        match self.current_cycle {
            2 => {
                let r = self.read_bus(self._pc);
                Ghost(r)
            },
            3 => {
                let r = self.read_bus(STACK_ADDRESS + self.s as u16);
                Ghost(r)
            },
            _ => {
                let r = if self.current_opcode == PLA {
                    self.a = self.pop_stack();
                    self.set_nz(self.a);
                    self.a
                } else {
                    self.p.set_b(false);
                    let value = self.pop_stack();
                    self.p.set_value(value);
                    value
                };
                self.finished = true;
                Ghost(r)
            },
        }
    }

    fn cycle_jmp_ind(&mut self) -> (v: Ghost<u8>)
        requires
            old(self).at(Group::JmpInd),
        ensures
            old(self).did_cycle(*final(self), v@),
    {
        reveal(cycle_access);
        reveal(cycle_effect);
        match self.current_cycle {
            2 => self.fetch_low(),
            3 => {
                let high = self.read_bus(self._pc);
                self.current_address = (high as u16) << 8 | self.low_byte as u16;
                self.inc_pc();
                Ghost(high)
            },
            4 => {
                self.low_byte = self.read_bus(self.current_address);
                Ghost(self.low_byte)
            },
            _ => {
                let ah = self.current_address & 0xff00;
                let al = self.current_address.wrapping_add(1) & 0xff;
                let high = self.read_bus(ah | al);
                self._pc = (high as u16) << 8 | self.low_byte as u16;
                self.finished = true;
                Ghost(high)
            },
        }
    }

    fn cycle_jmp(&mut self) -> (v: Ghost<u8>)
        requires
            old(self).at(Group::Jmp),
        ensures
            old(self).did_cycle(*final(self), v@),
    {
        reveal(cycle_access);
        reveal(cycle_effect);
        if self.current_cycle == 2 {
            self.fetch_low()
        } else {
            let high = self.read_bus(self._pc);
            self._pc = (high as u16) << 8 | self.low_byte as u16;
            self.finished = true;
            Ghost(high)
        }
    }

    fn cycle_jsr(&mut self) -> (v: Ghost<u8>)
        requires
            old(self).at(Group::Jsr),
        ensures
            old(self).did_cycle(*final(self), v@),
    {
        reveal(cycle_access);
        reveal(cycle_effect);
        match self.current_cycle {
            2 => self.fetch_low(),
            3 => {
                let r = self.read_bus(STACK_ADDRESS.wrapping_add(self.s as u16));
                Ghost(r)
            },
            4 => {
                self.push_to_stack(((self._pc & 0xff00) >> 8) as u8);
                Ghost(0)
            },
            5 => {
                self.push_to_stack(self._pc as u8);
                Ghost(0)
            },
            _ => {
                let high = self.read_bus(self._pc);
                self._pc = (high as u16) << 8 | self.low_byte as u16;
                self.finished = true;
                Ghost(high)
            },
        }
    }

    fn cycle_transfer(&mut self) -> (v: Ghost<u8>)
        requires
            old(self).at(Group::Transfer),
        ensures
            old(self).did_cycle(*final(self), v@),
    {
        reveal(cycle_access);
        reveal(cycle_effect);
        self.current_value = self.read_bus(self._pc);
        match transfer_kind(self.current_opcode) {
            TransferKind::Tsx => {
                self.x = self.s;
                self.set_nz(self.x);
            },
            TransferKind::Txs => {
                self.s = self.x;
            },
            TransferKind::Tax => {
                self.x = self.a;
                self.set_nz(self.x);
            },
            TransferKind::Txa => {
                self.a = self.x;
                self.set_nz(self.a);
            },
            TransferKind::Tya => {
                self.a = self.y;
                self.set_nz(self.a);
            },
            TransferKind::Tay => {
                self.y = self.a;
                self.set_nz(self.y);
            },
            TransferKind::Dex => {
                self.x = self.x.wrapping_sub(1);
                self.set_nz(self.x);
            },
            TransferKind::Dey => {
                self.y = self.y.wrapping_sub(1);
                self.set_nz(self.y);
            },
            TransferKind::Inx => {
                self.x = self.x.wrapping_add(1);
                self.set_nz(self.x);
            },
            TransferKind::Iny => {
                self.y = self.y.wrapping_add(1);
                self.set_nz(self.y);
            },
        }
        self.finished = true;
        Ghost(self.current_value)
    }

    fn cycle_shift_a(&mut self) -> (v: Ghost<u8>)
        requires
            old(self).at(Group::ShiftA),
        ensures
            old(self).did_cycle(*final(self), v@),
    {
        reveal(cycle_access);
        reveal(cycle_effect);
        let r = self.read_bus(self._pc);
        let kind = rmw_kind(self.current_opcode);
        let result = self.modify(kind, self.a);
        if kind == RmwKind::Asl {
            self.set_nz(result);
        }
        self.a = result;
        self.set_nz(self.a);
        self.finished = true;
        Ghost(r)
    }

    fn cycle_compare_imm(&mut self) -> (v: Ghost<u8>)
        requires
            old(self).at(Group::CompareImm),
        ensures
            old(self).did_cycle(*final(self), v@),
    {
        reveal(cycle_access);
        reveal(cycle_effect);
        self.current_value = self.read_bus(self._pc);
        self.inc_pc();
        let register = if self.current_opcode == CPY_IMM {
            self.y
        } else {
            self.x
        };
        self.cmp(register, self.current_value);
        self.finished = true;
        Ghost(self.current_value)
    }

    fn cycle_read_imm(&mut self) -> (v: Ghost<u8>)
        requires
            old(self).at(Group::ReadImm),
        ensures
            old(self).did_cycle(*final(self), v@),
    {
        reveal(cycle_access);
        reveal(cycle_effect);
        self.current_value = self.read_bus(self._pc);
        self.inc_pc();
        let value = self.current_value;
        self.apply_read(value);
        Ghost(value)
    }

    fn cycle_read_abs(&mut self) -> (v: Ghost<u8>)
        requires
            old(self).at(Group::ReadAbs),
        ensures
            old(self).did_cycle(*final(self), v@),
    {
        reveal(cycle_access);
        reveal(cycle_effect);
        match self.current_cycle {
            2 => self.fetch_low(),
            3 => self.fetch_high(),
            _ => {
                let value = self.read_bus(self.current_address);
                self.apply_read(value);
                Ghost(value)
            },
        }
    }

    fn cycle_rmw_abs(&mut self) -> (v: Ghost<u8>)
        requires
            old(self).at(Group::RmwAbs),
        ensures
            old(self).did_cycle(*final(self), v@),
    {
        reveal(cycle_access);
        reveal(cycle_effect);
        match self.current_cycle {
            2 => self.fetch_low(),
            3 => self.fetch_high(),
            4 => {
                self.current_value = self.read_bus(self.current_address);
                Ghost(self.current_value)
            },
            5 => {
                self.write_bus(self.current_address, self.current_value);
                Ghost(0)
            },
            _ => self.read_modify_write(),
        }
    }

    fn cycle_write_abs(&mut self) -> (v: Ghost<u8>)
        requires
            old(self).at(Group::WriteAbs),
        ensures
            old(self).did_cycle(*final(self), v@),
    {
        reveal(cycle_access);
        reveal(cycle_effect);
        match self.current_cycle {
            2 => self.fetch_low(),
            3 => self.fetch_high(),
            _ => {
                let value = self.stored_register();
                self.write_bus(self.current_address, value);
                self.finished = true;
                Ghost(0)
            },
        }
    }

    fn cycle_read_zp(&mut self) -> (v: Ghost<u8>)
        requires
            old(self).at(Group::ReadZp),
        ensures
            old(self).did_cycle(*final(self), v@),
    {
        reveal(cycle_access);
        reveal(cycle_effect);
        if self.current_cycle == 2 {
            self.fetch_zp()
        } else {
            let value = self.read_bus(self.current_address);
            self.apply_read(value);
            Ghost(value)
        }
    }

    fn cycle_rmw_zp(&mut self) -> (v: Ghost<u8>)
        requires
            old(self).at(Group::RmwZp),
        ensures
            old(self).did_cycle(*final(self), v@),
    {
        reveal(cycle_access);
        reveal(cycle_effect);
        match self.current_cycle {
            2 => self.fetch_zp(),
            3 => {
                self.current_value = self.read_bus(self.current_address);
                Ghost(self.current_value)
            },
            4 => {
                self.write_bus(self.current_address, self.current_value);
                Ghost(0)
            },
            _ => self.read_modify_write(),
        }
    }

    fn cycle_write_zp(&mut self) -> (v: Ghost<u8>)
        requires
            old(self).at(Group::WriteZp),
        ensures
            old(self).did_cycle(*final(self), v@),
    {
        reveal(cycle_access);
        reveal(cycle_effect);
        if self.current_cycle == 2 {
            self.fetch_zp()
        } else {
            let value = self.stored_register();
            self.write_bus(self.current_address, value);
            self.finished = true;
            Ghost(0)
        }
    }

    fn cycle_read_zp_idx(&mut self) -> (v: Ghost<u8>)
        requires
            old(self).at(Group::ReadZpIdx),
        ensures
            old(self).did_cycle(*final(self), v@),
    {
        reveal(cycle_access);
        reveal(cycle_effect);
        match self.current_cycle {
            2 => self.fetch_zp(),
            3 => {
                let r = self.read_bus(self.current_address);
                let increment = self.index_register();
                self.current_address = self.current_address.wrapping_add(increment as u16) & 0xff;
                Ghost(r)
            },
            _ => {
                let value = self.read_bus(self.current_address);
                self.apply_read(value);
                Ghost(value)
            },
        }
    }

    fn cycle_rmw_zp_x(&mut self) -> (v: Ghost<u8>)
        requires
            old(self).at(Group::RmwZpX),
        ensures
            old(self).did_cycle(*final(self), v@),
    {
        reveal(cycle_access);
        reveal(cycle_effect);
        match self.current_cycle {
            2 => self.fetch_zp(),
            3 => {
                let r = self.read_bus(self.current_address);
                self.current_address = self.current_address.wrapping_add(self.x as u16) & 0xff;
                Ghost(r)
            },
            4 => {
                self.current_value = self.read_bus(self.current_address);
                Ghost(self.current_value)
            },
            5 => {
                self.write_bus(self.current_address, self.current_value);
                Ghost(0)
            },
            _ => self.read_modify_write(),
        }
    }

    fn cycle_write_zp_idx(&mut self) -> (v: Ghost<u8>)
        requires
            old(self).at(Group::WriteZpIdx),
        ensures
            old(self).did_cycle(*final(self), v@),
    {
        reveal(cycle_access);
        reveal(cycle_effect);
        match self.current_cycle {
            2 => self.fetch_zp(),
            3 => {
                let r = self.read_bus(self.current_address);
                let increment = self.index_register();
                self.current_address = self.current_address.wrapping_add(increment as u16) & 0xff;
                Ghost(r)
            },
            _ => {
                let value = self.stored_register();
                self.write_bus(self.current_address, value);
                self.finished = true;
                Ghost(0)
            },
        }
    }

    fn cycle_read_ind_x(&mut self) -> (v: Ghost<u8>)
        requires
            old(self).at(Group::ReadIndX),
        ensures
            old(self).did_cycle(*final(self), v@),
    {
        reveal(cycle_access);
        reveal(cycle_effect);
        match self.current_cycle {
            2 => self.fetch_low(),
            3 => {
                let r = self.read_bus(self.low_byte as u16);
                self.current_address = (self.low_byte as u16 + self.x as u16) & 0xff;
                Ghost(r)
            },
            4 => {
                self.low_byte = self.read_bus(self.current_address);
                Ghost(self.low_byte)
            },
            5 => {
                let high = self.read_bus(self.current_address.wrapping_add(1) & 0xff);
                self.current_address = (high as u16) << 8 | self.low_byte as u16;
                Ghost(high)
            },
            _ => {
                let value = self.read_bus(self.current_address);
                self.apply_read(value);
                Ghost(value)
            },
        }
    }

    fn cycle_write_ind_x(&mut self) -> (v: Ghost<u8>)
        requires
            old(self).at(Group::WriteIndX),
        ensures
            old(self).did_cycle(*final(self), v@),
    {
        reveal(cycle_access);
        reveal(cycle_effect);
        match self.current_cycle {
            2 => {
                self.pointer = self.read_bus(self._pc);
                self.inc_pc();
                Ghost(self.pointer)
            },
            3 => {
                let r = self.read_bus(self.pointer as u16);
                self.current_address = (self.pointer as u16 + self.x as u16) & 0xff;
                Ghost(r)
            },
            4 => {
                self.low_byte = self.read_bus(self.current_address);
                Ghost(self.low_byte)
            },
            5 => {
                let high = self.read_bus(self.current_address.wrapping_add(1) & 0xff);
                self.current_address = (high as u16) << 8 | self.low_byte as u16;
                Ghost(high)
            },
            _ => {
                self.write_bus(self.current_address, self.a);
                self.finished = true;
                Ghost(0)
            },
        }
    }

    fn cycle_read_abs_idx(&mut self) -> (v: Ghost<u8>)
        requires
            old(self).at(Group::ReadAbsIdx),
        ensures
            old(self).did_cycle(*final(self), v@),
    {
        reveal(cycle_access);
        reveal(cycle_effect);
        match self.current_cycle {
            2 => self.fetch_low(),
            3 => {
                let high = self.read_bus(self._pc);
                let increment = self.index_register();
                self.index_address(high, increment);
                self.inc_pc();
                Ghost(high)
            },
            4 => {
                self.current_value = self.read_bus(self.current_address);
                Ghost(self.current_value)
            },
            _ => {
                if self.page_crossed {
                    self.current_address = self.current_address.wrapping_add(0x100);
                    let value = self.read_bus(self.current_address);
                    self.apply_read(value);
                    Ghost(value)
                } else {
                    self.no_increment = true;
                    let value = self.current_value;
                    self.apply_read(value);
                    Ghost(0)
                }
            },
        }
    }

    fn cycle_rmw_abs_x(&mut self) -> (v: Ghost<u8>)
        requires
            old(self).at(Group::RmwAbsX),
        ensures
            old(self).did_cycle(*final(self), v@),
    {
        reveal(cycle_access);
        reveal(cycle_effect);
        match self.current_cycle {
            2 => self.fetch_low(),
            3 => {
                let high = self.read_bus(self._pc);
                let x = self.x;
                let low = self.low_plus(x);
                self.index_address(high, x);
                self.low_byte = low;
                self.inc_pc();
                Ghost(high)
            },
            4 => {
                self.current_value = self.read_bus(self.current_address);
                if self.page_crossed {
                    self.current_address = self.current_address.wrapping_add(0x100);
                }
                Ghost(self.current_value)
            },
            5 => {
                self.current_value = self.read_bus(self.current_address);
                Ghost(self.current_value)
            },
            6 => {
                self.write_bus(self.current_address, self.current_value);
                Ghost(0)
            },
            _ => self.read_modify_write(),
        }
    }

    fn cycle_write_abs_idx(&mut self) -> (v: Ghost<u8>)
        requires
            old(self).at(Group::WriteAbsIdx),
        ensures
            old(self).did_cycle(*final(self), v@),
    {
        reveal(cycle_access);
        reveal(cycle_effect);
        match self.current_cycle {
            2 => self.fetch_low(),
            3 => {
                let high = self.read_bus(self._pc);
                let increment = self.index_register();
                let low = self.low_plus(increment);
                self.index_address(high, increment);
                self.low_byte = low;
                self.inc_pc();
                Ghost(high)
            },
            4 => {
                self.current_value = self.read_bus(self.current_address);
                if self.page_crossed {
                    self.current_address = self.current_address.wrapping_add(0x100);
                }
                Ghost(self.current_value)
            },
            _ => {
                self.write_bus(self.current_address, self.a);
                self.finished = true;
                Ghost(0)
            },
        }
    }

    /// Cycles 2 to 4 of the indirect indexed (Y) instructions.
    fn ind_y_address(&mut self) -> (v: Ghost<u8>)
        requires
            old(self).memory.inv(),
            2 <= old(self).current_cycle <= 4,
        ensures
            final(self).memory.inv(),
            bus(
                old(self).memory,
                if old(self).current_cycle == 2 {
                    Access::Read(old(self)._pc)
                } else if old(self).current_cycle == 3 {
                    Access::Read(old(self).pointer as u16)
                } else {
                    Access::Read(((old(self).pointer as u16 + 1) as u16) & 0xff)
                },
                final(self).memory,
                v@,
            ),
            final(self).regs() == if old(self).current_cycle == 2 {
                Core { pointer: v@, pc: crate::cpu::spec::wadd16(old(self)._pc, 1), ..old(self).regs() }
            } else if old(self).current_cycle == 3 {
                Core { low_byte: v@, ..old(self).regs() }
            } else {
                Core {
                    low_byte: crate::cpu::spec::low_indexed(old(self).regs(), old(self).y),
                    ..crate::cpu::spec::indexed(old(self).regs(), v@, old(self).y)
                }
            },
    {
        if self.current_cycle == 2 {
            self.pointer = self.read_bus(self._pc);
            self.inc_pc();
            Ghost(self.pointer)
        } else if self.current_cycle == 3 {
            self.low_byte = self.read_bus(self.pointer as u16);
            Ghost(self.low_byte)
        } else {
            let high = self.read_bus((self.pointer as u16 + 1) & 0xff);
            let y = self.y;
            let low = self.low_plus(y);
            self.index_address(high, y);
            self.low_byte = low;
            Ghost(high)
        }
    }

    fn cycle_read_ind_y(&mut self) -> (v: Ghost<u8>)
        requires
            old(self).at(Group::ReadIndY),
        ensures
            old(self).did_cycle(*final(self), v@),
    {
        reveal(cycle_access);
        reveal(cycle_effect);
        match self.current_cycle {
            2 | 3 | 4 => self.ind_y_address(),
            5 => {
                self.current_value = self.read_bus(self.current_address);
                Ghost(self.current_value)
            },
            _ => {
                if self.page_crossed {
                    self.current_value = self.read_bus(self.current_address.wrapping_add(0x100));
                    let value = self.current_value;
                    self.apply_read(value);
                    Ghost(value)
                } else {
                    self.no_increment = true;
                    let value = self.current_value;
                    self.apply_read(value);
                    Ghost(0)
                }
            },
        }
    }

    fn cycle_write_ind_y(&mut self) -> (v: Ghost<u8>)
        requires
            old(self).at(Group::WriteIndY),
        ensures
            old(self).did_cycle(*final(self), v@),
    {
        reveal(cycle_access);
        reveal(cycle_effect);
        match self.current_cycle {
            2 | 3 | 4 => self.ind_y_address(),
            5 => {
                self.current_value = self.read_bus(self.current_address);
                Ghost(self.current_value)
            },
            _ => {
                if self.page_crossed {
                    self.current_address = self.current_address.wrapping_add(0x100);
                }
                self.write_bus(self.current_address, self.a);
                self.finished = true;
                Ghost(0)
            },
        }
    }

    fn cycle_branch(&mut self) -> (v: Ghost<u8>)
        requires
            old(self).at(Group::Branch),
        ensures
            old(self).did_cycle(*final(self), v@),
    {
        reveal(cycle_access);
        reveal(cycle_effect);
        match self.current_cycle {
            2 => self.fetch_low(),
            3 => {
                let (mask, want) = flag(self.current_opcode);
                let taken = ((self.p.bits & mask) != 0) == want;
                if taken {
                    let r = self.read_bus(self._pc);
                    let old = self._pc;
                    let new = if self.low_byte < 0x80 {
                        self._pc.wrapping_add(self.low_byte as u16)
                    } else {
                        self._pc.wrapping_sub(256 - self.low_byte as u16)
                    };
                    self.page_crossed = ((old ^ new) & 0xff00) > 0;
                    self.current_address = new;
                    proof {
                        crate::bit_facts::lemma_u16_masks();
                    }
                    let pcl = ((self._pc & 0xff) + self.low_byte as u16) & 0xff;
                    self._pc = (self._pc & 0xff00) | pcl;
                    self.pc_was_changed = true;
                    Ghost(r)
                } else {
                    self.page_crossed = false;
                    self.no_increment = true;
                    Ghost(0)
                }
            },
            _ => {
                let r = if self.page_crossed {
                    let r = self.read_bus(self._pc);
                    self._pc = self.current_address;
                    r
                } else {
                    self.no_increment = true;
                    0
                };
                self.finished = true;
                Ghost(r)
            },
        }
    }

    fn cycle_brk(&mut self) -> (v: Ghost<u8>)
        requires
            old(self).at(Group::Brk),
        ensures
            old(self).did_cycle(*final(self), v@),
    {
        reveal(cycle_access);
        reveal(cycle_effect);
        self.interrupt_cycle(0xfffe, 0xffff)
    }

    /// The work of the current cycle of a known instruction.
    fn cycle_work(&mut self) -> (v: Ghost<u8>)
        requires
            old(self).memory.inv(),
            group_of(old(self).current_opcode) != Group::Unknown,
            1 <= old(self).current_cycle <= last_cycle(group_of(old(self).current_opcode)),
        ensures
            old(self).did_cycle(*final(self), v@),
    {
        reveal(cycle_access);
        reveal(cycle_effect);
        if self.current_cycle < 2 {
            return Ghost(0);
        }
        match group(self.current_opcode) {
            Group::Flag => self.cycle_flag(),
            Group::Nop => self.cycle_nop(),
            Group::Brk => self.cycle_brk(),
            Group::Rti => self.cycle_rti(),
            Group::Rts => self.cycle_rts(),
            Group::Push => self.cycle_push(),
            Group::Pull => self.cycle_pull(),
            Group::JmpInd => self.cycle_jmp_ind(),
            Group::Jmp => self.cycle_jmp(),
            Group::Jsr => self.cycle_jsr(),
            Group::Transfer => self.cycle_transfer(),
            Group::ShiftA => self.cycle_shift_a(),
            Group::CompareImm => self.cycle_compare_imm(),
            Group::ReadImm => self.cycle_read_imm(),
            Group::ReadAbs => self.cycle_read_abs(),
            Group::RmwAbs => self.cycle_rmw_abs(),
            Group::WriteAbs => self.cycle_write_abs(),
            Group::ReadZp => self.cycle_read_zp(),
            Group::RmwZp => self.cycle_rmw_zp(),
            Group::WriteZp => self.cycle_write_zp(),
            Group::ReadZpIdx => self.cycle_read_zp_idx(),
            Group::RmwZpX => self.cycle_rmw_zp_x(),
            Group::WriteZpIdx => self.cycle_write_zp_idx(),
            Group::ReadIndX => self.cycle_read_ind_x(),
            Group::WriteIndX => self.cycle_write_ind_x(),
            Group::ReadAbsIdx => self.cycle_read_abs_idx(),
            Group::RmwAbsX => self.cycle_rmw_abs_x(),
            Group::WriteAbsIdx => self.cycle_write_abs_idx(),
            Group::ReadIndY => self.cycle_read_ind_y(),
            Group::WriteIndY => self.cycle_write_ind_y(),
            Group::Branch => self.cycle_branch(),
            Group::Unknown => Ghost(0),
        }
    }


    /// The tick from `self` is a cycle of the interrupt sequence: one is under way, or the
    /// processor is between instructions with an interrupt pending.
    pub open spec fn in_interrupt(&self) -> bool {
        self.regs().pending is Some && (self.regs().interrupting || self.regs().finished)
    }

    /// One tick took `self` to `n` and returned `r`: a cycle of the interrupt sequence,
    /// which counts; or, after the fetch of the next opcode between two instructions,
    /// the work of the current cycle of the instruction.
    pub open spec fn tick_rel(&self, n: Self, r: Result<u8, UnknownOpcode>) -> bool {
        if self.in_interrupt() {
            r == Ok::<u8, UnknownOpcode>(1) && self.interrupt_tick(n)
        } else {
            exists|mid: Self| #[trigger] self.starts(mid) && mid.ends(n, r)
        }
    }

    /// Performs one bus cycle: a cycle of the interrupt sequence where one is
    /// under way or, between two instructions, pending; else (after the fetch
    /// of the next opcode between two instructions) the work of the current
    /// cycle of the instruction. Returns 1, or 0 for a cycle that does not
    /// count (a branch not taken, an indexed read that stays in its page), or
    /// the opcode where it is no known instruction.
    pub fn tick(&mut self) -> (r: Result<u8, UnknownOpcode>)
        requires
            old(self).wf(),
        ensures
            final(self).wf(),
            old(self).tick_rel(*final(self), r),
            old(self).between_instructions() && r is Ok ==> r == Ok::<u8, UnknownOpcode>(1)
                && !final(self).between_instructions()
                && final(self).cycle_number() == (if old(self).regs().pending is Some { 3u8 } else { 2u8 }),
            !old(self).between_instructions() && r is Ok ==> final(self).between_instructions()
                || final(self).cycle_number() == old(self).cycle_number() + 1,
            r is Ok ==> r == Ok::<u8, UnknownOpcode>(0) || r == Ok::<u8, UnknownOpcode>(1),
            r matches Err(e) ==> group_of(e.opcode) == Group::Unknown,
    {
        let ghost s0 = *self;
        if let Some((low, high)) = self.pending_interrupt {
            if self.interrupting || self.finished {
                if self.finished {
                    self.current_cycle = 2;
                    self.finished = false;
                    self.interrupting = true;
                }
                let ghost c = *self;
                let v = self.interrupt_cycle(low, high);
                self.current_cycle = self.current_cycle + 1;
                let ghost d = *self;
                proof {
                    let c0 = interrupt_state(s0.regs());
                    assert(c.regs() == c0);
                    assert(c0.pending.unwrap().0 == low && c0.pending.unwrap().1 == high);
                    assert(bus(s0.bus_state(), interrupt_access(c0, low, high), d.bus_state(), v@));
                    assert(d.regs() == bump(interrupt_effect(c0, v@)));
                }
                if self.current_cycle == 8 {
                    self.current_cycle = 1;
                    self.pending_interrupt = None;
                    self.interrupting = false;
                }
                assert(self.bus_state() == d.bus_state());
                assert(self.regs() == (if d.regs().cycle == 8 {
                    Core { cycle: 1, pending: None, interrupting: false, ..d.regs() }
                } else {
                    d.regs()
                }));
                proof {
                    let cc = interrupt_state(s0.regs());
                    let lo = cc.pending.unwrap().0;
                    let hi = cc.pending.unwrap().1;
                    assert(lo == low && hi == high);
                    assert(bus(s0.bus_state(), interrupt_access(cc, lo, hi), self.bus_state(), v@));
                    let dd = bump(interrupt_effect(cc, v@));
                    assert(dd == d.regs());
                }
                assert(s0.interrupt_tick(*self));
                return Ok(1);
            }
        }
        assert(!self.interrupting);
        if self.finished {
            let ghost w = *self;
            self.pc_was_changed = false;
            self.current_opcode = self.read_bus(self._pc);
            self.inc_pc();
            self.current_cycle = 1;
            self.no_increment = false;
            self.finished = false;
            assert(w.memory.reads(self.memory, w._pc, self.current_opcode));
            assert(w.bus_state().reads(self.bus_state(), w.regs().pc, self.current_opcode));
            assert(self.regs() == fetch_next(w.regs(), self.current_opcode));
            assert(w.fetches(*self));
        }
        let ghost mid = *self;
        assert(s0.starts(mid));
        let g = group(self.current_opcode);
        if g == Group::Unknown {
            let r = Err(UnknownOpcode { opcode: self.current_opcode, pc: self._pc });
            assert(mid.ends(*self, r));
            return r;
        }
        proof {
            lemma_last_cycle(g);
        }
        let v = self.cycle_work();
        proof {
            lemma_effect_progress(mid.regs(), v@);
            if mid.current_cycle >= 2 {
                crate::cpu::spec::lemma_effect_counting(mid.regs(), v@);
            }
        }
        let result: u8 = if self.no_increment {
            0
        } else {
            1
        };
        self.current_cycle = self.current_cycle + 1;
        assert(bus(mid.memory, cycle_access(mid.regs()), self.memory, v@));
        assert(bus(mid.bus_state(), cycle_access(mid.regs()), self.bus_state(), v@));
        assert(self.regs() == bump(cycle_effect(mid.regs(), v@)));
        assert(mid.ends(*self, Ok(result)));
        Ok(result)
    }

    /// Tick `i` of the run through the states `h` took `h[i]` to `h[i + 1]`
    /// and counted `q[i]`, and, unless it is the first, started with an
    /// instruction under way.
    pub open spec fn link(h: Seq<Self>, q: Seq<u8>, i: int) -> bool {
        &&& h[i].tick_rel(h[i + 1], Ok::<u8, UnknownOpcode>(q[i]))
        &&& (i == 0 || !h[i].regs().finished)
    }

    /// `h` lists the states that a run of ticks passed through, tick `i`
    /// counting `q[i]` cycles, and no tick but the first started between
    /// two instructions.
    pub open spec fn run(h: Seq<Self>, q: Seq<u8>) -> bool {
        &&& h.len() == q.len() + 1
        &&& forall|i: int| 0 <= i < q.len() ==> #[trigger] Self::link(h, q, i)
    }

    /// Tick `i` of the run through the states `h` took `h[i]` to `h[i + 1]`
    /// and counted no cycle.
    pub open spec fn idle_link(h: Seq<Self>, i: int) -> bool {
        h[i].tick_rel(h[i + 1], Ok::<u8, UnknownOpcode>(0))
    }

    /// `h` lists the states that a run of ticks passed through, none of
    /// which counted a cycle.
    pub open spec fn idle_run(h: Seq<Self>) -> bool {
        &&& h.len() >= 1
        &&& forall|i: int| 0 <= i < h.len() - 1 ==> #[trigger] Self::idle_link(h, i)
    }

    /// Ticks until a tick counts a cycle (or meets an unknown opcode), and
    /// returns whether the processor was between instructions before that
    /// tick, with the count it returned.
    pub fn one_cycle(&mut self) -> (r: Result<(bool, u8), UnknownOpcode>)
        requires
            old(self).wf(),
        ensures
            final(self).wf(),
            r matches Ok((b, c)) ==> c == 1 && exists|h: Seq<Self>|
                #[trigger] Self::idle_run(h) && h[0] == *old(self) && h.last().tick_rel(
                    *final(self),
                    Ok::<u8, UnknownOpcode>(c),
                ) && b == h.last().between_instructions(),
            r matches Err(e) ==> exists|h: Seq<Self>|
                #[trigger] Self::idle_run(h) && h[0] == *old(self) && h.last().tick_rel(
                    *final(self),
                    Err::<u8, UnknownOpcode>(e),
                ),            r matches Err(e) ==> group_of(e.opcode) == Group::Unknown,
    {
        let ghost s0 = *self;
        let ghost mut h: Seq<Self> = seq![*self];
        loop
            invariant
                self.wf(),
                Self::idle_run(h),
                h[0] == *old(self),
                h.last() == *self,
            decreases (if self.finished {
                0
            } else {
                9 - self.current_cycle
            }),
        {
            let ghost t = *self;
            let finished = self.finished;
            let q = self.tick();
            match q {
                Ok(c) => {
                    if c != 0 {
                        assert(h.last().tick_rel(*self, Ok::<u8, UnknownOpcode>(c)));
                        return Ok((finished, c));
                    }
                    proof {
                        let h2 = h.push(*self);
                        assert forall|i: int| 0 <= i < h2.len() - 1 implies #[trigger] Self::idle_link(
                            h2,
                            i,
                        ) by {
                            if i < h.len() - 1 {
                                assert(Self::idle_link(h, i));
                            }
                        }
                        h = h2;
                    }
                },
                Err(e) => {
                    assert(h.last().tick_rel(*self, Err::<u8, UnknownOpcode>(e)));
                    return Err(e);
                },
            }
        }
    }

    /// Ticks until the instruction under way (or, between instructions, the
    /// next one) completes, and returns the number of cycles counted.
    pub fn run_one_instruction(&mut self) -> (r: Result<u8, UnknownOpcode>)
        requires
            old(self).wf(),
        ensures
            final(self).wf(),
            r matches Ok(c) ==> final(self).between_instructions() && exists|h: Seq<Self>, q: Seq<u8>|
                #[trigger] Self::run(h, q) && h[0] == *old(self) && h.last() == *final(self)
                    && c == total(q) && q.len() > 0,
            r matches Err(e) ==> exists|h: Seq<Self>, q: Seq<u8>|
                #[trigger] Self::run(h, q) && h[0] == *old(self) && (q.len() == 0
                    || !h.last().between_instructions()) && h.last().tick_rel(
                    *final(self),
                    Err::<u8, UnknownOpcode>(e),
                ),            r matches Err(e) ==> group_of(e.opcode) == Group::Unknown,
    {
        let ghost mut h: Seq<Self> = seq![*self];
        let ghost mut qs: Seq<u8> = seq![];
        let mut result: u8 = 0;
        loop
            invariant
                self.wf(),
                Self::run(h, qs),
                h[0] == *old(self),
                h.last() == *self,
                result == total(qs),
                qs.len() == 0 || !self.finished,
                qs.len() + (if self.finished {
                    10
                } else {
                    9 - self.current_cycle
                }) <= 10,
                result <= qs.len(),
            decreases (if self.finished {
                10
            } else {
                9 - self.current_cycle
            }),
        {
            let ghost t = *self;
            match self.tick() {
                Ok(c) => {
                    proof {
                        let h2 = h.push(*self);
                        let q2 = qs.push(c);
                        assert forall|i: int| 0 <= i < q2.len() implies #[trigger] Self::link(
                            h2,
                            q2,
                            i,
                        ) by {
                            if i < qs.len() {
                                assert(Self::link(h, qs, i));
                            }
                        }
                        assert(q2.drop_last() =~= qs);
                        h = h2;
                        qs = q2;
                    }
                    result = result + c;
                },
                Err(e) => {
                    assert(h.last().tick_rel(*self, Err::<u8, UnknownOpcode>(e)));
                    return Err(e);
                },
            }
            if self.finished {
                assert(Self::run(h, qs) && h.last() == *self && result == total(qs) && qs.len() > 0);
                return Ok(result);
            }
        }
    }
}

/// The sum of the counts.
pub open spec fn total(q: Seq<u8>) -> nat
    decreases q.len(),
{
    if q.len() == 0 {
        0
    } else {
        total(q.drop_last()) + q.last() as nat
    }
}


impl CpuInterface for Cpu2<NesMemory> {
    open spec fn ready(&self) -> bool {
        self.wf()
    }

    closed spec fn cycle_count(&self) -> u128 {
        self.cycles
    }

    fn set_pc(&mut self, pc: u16)
        ensures
            final(self).regs() == (Core { pc, ..old(self).regs() }),
            final(self).bus_state() == old(self).bus_state(),
    {
        Cpu2::set_pc(self, pc);
    }

    fn pc(&self) -> (r: u16)
        ensures
            r == self.regs().pc,
    {
        Cpu2::pc(self)
    }

    fn set_s(&mut self, v: u8)
        ensures
            final(self).regs() == (Core { s: v, ..old(self).regs() }),
            final(self).bus_state() == old(self).bus_state(),
    {
        self.s = v;
    }

    fn nmi(&mut self)
        ensures
            final(self).regs() == (Core { pending: Some((0xfffa, 0xfffb)), ..old(self).regs() }),
            final(self).bus_state() == old(self).bus_state(),
    {
        Cpu2::nmi(self);
    }

    fn irq(&mut self)
        ensures
            final(self).regs() == (Core { pending: Some((0xfffe, 0xffff)), ..old(self).regs() }),
            final(self).bus_state() == old(self).bus_state(),
    {
        Cpu2::irq(self);
    }

    fn get_cycles(&self) -> (r: u128) {
        self.cycles
    }

    fn add_cycles(&mut self, cycles: u128)
        ensures
            final(self).regs() == (Core { cycles: (old(self).regs().cycles + cycles) as u128, ..old(self).regs() }),
            final(self).bus_state() == old(self).bus_state(),
    {
        self.cycles = self.cycles + cycles;
    }

    fn one_cycle(&mut self) -> (r: Result<(bool, u8), UnknownOpcode>)
        ensures
            r matches Ok((b, c)) ==> c == 1 && exists|h: Seq<Self>|
                #[trigger] Self::idle_run(h) && h[0] == *old(self) && h.last().tick_rel(
                    *final(self),
                    Ok::<u8, UnknownOpcode>(c),
                ) && b == h.last().between_instructions(),
            r matches Err(e) ==> exists|h: Seq<Self>|
                #[trigger] Self::idle_run(h) && h[0] == *old(self) && h.last().tick_rel(
                    *final(self),
                    Err::<u8, UnknownOpcode>(e),
                ),
    {
        Cpu2::one_cycle(self)
    }

    fn memory(&mut self) -> (r: &mut NesMemory)
        ensures
            *r == old(self).bus_state(),
            final(self).bus_state() == *final(r),
            final(self).regs() == old(self).regs(),
    {
        &mut self.memory
    }
}

/// A flat 64 KB RAM that records every CPU access: the address, the byte
/// and whether it was a read or a write.
pub struct Cpu2Memory {
    ram: Vec<u8>,
    pub cycles: Vec<(u16, u8, String)>,
}

/// The word that marks a read in the access log.
pub open spec fn read_word() -> Seq<char> {
    seq!['r', 'e', 'a', 'd']
}

/// The word that marks a write in the access log.
pub open spec fn write_word() -> Seq<char> {
    seq!['w', 'r', 'i', 't', 'e']
}

impl Cpu2Memory {
    /// The bytes of the RAM.
    pub closed spec fn ram_view(&self) -> Seq<u8> {
        self.ram@
    }

    /// The accesses recorded so far, oldest first.
    pub closed spec fn log(&self) -> Seq<(u16, u8, Seq<char>)> {
        self.cycles@.map_values(|e: (u16, u8, String)| (e.0, e.1, e.2@))
    }

    fn record(&mut self, address: u16, value: u8, kind: String)
        ensures
            final(self).ram_view() == old(self).ram_view(),
            final(self).log() == old(self).log().push((address, value, kind@)),
    {
        self.cycles.push((address, value, kind));
        assert(self.log() =~= old(self).log().push((address, value, kind@)));
    }
}

impl Default for Cpu2Memory {
    fn default() -> (r: Self)
        ensures
            r.ram_view() == Seq::new(0x10000, |i: int| 0u8),
            r.log() == Seq::<(u16, u8, Seq<char>)>::empty(),
    {
        let r = Cpu2Memory { ram: vec![0u8; 0x10000], cycles: Vec::new() };
        assert(r.ram_view() =~= Seq::new(0x10000, |i: int| 0u8));
        assert(r.log() =~= Seq::<(u16, u8, Seq<char>)>::empty());
        r
    }
}

impl Memory for Cpu2Memory {
    open spec fn inv(&self) -> bool {
        self.ram_view().len() == 0x10000
    }

    /// The byte stored at `address`; the read is recorded.
    open spec fn reads(&self, after: Self, address: u16, value: u8) -> bool {
        &&& after.ram_view().len() == 0x10000
        &&& value == self.ram_view()[address as int]
        &&& after.ram_view() == self.ram_view()
        &&& after.log() == self.log().push((address, value, read_word()))
    }

    /// The byte is stored at `address`; the write is recorded.
    open spec fn writes(&self, after: Self, address: u16, value: u8) -> bool {
        &&& after.ram_view().len() == 0x10000
        &&& after.ram_view() == self.ram_view().update(address as int, value)
        &&& after.log() == self.log().push((address, value, write_word()))
    }

    fn get(&mut self, address: u16) -> (r: u8) {
        let value = self.ram[address as usize];
        let word = "read";
        proof {
            reveal_strlit("read");
        }
        let kind = word.to_owned();
        assert(kind@ =~= read_word());
        self.record(address, value, kind);
        value
    }

    fn set(&mut self, address: u16, value: u8) {
        let word = "write";
        proof {
            reveal_strlit("write");
        }
        let kind = word.to_owned();
        assert(kind@ =~= write_word());
        self.record(address, value, kind);
        self.ram.set(address as usize, value);
    }

    fn set_force(&mut self, address: u16, value: u8)
        ensures
            final(self).ram_view() == old(self).ram_view().update(address as int, value),
            final(self).log() == old(self).log(),
    {
        self.ram.set(address as usize, value);
    }

    fn get_direct(&mut self, address: u16) -> (r: u8)
        ensures
            r == old(self).ram_view()[address as int],
            *final(self) == *old(self),
    {
        self.ram[address as usize]
    }

    /// A copy of the 64 KB.
    fn main_memory(&mut self) -> (r: Vec<u8>)
        ensures
            r@ == old(self).ram_view(),
            final(self).ram_view() == old(self).ram_view(),
            final(self).log() == old(self).log(),
    {
        self.ram.clone()
    }
}

/// A read of the flat RAM gives back the byte last written to the address,
/// and a write leaves the other addresses alone.
pub proof fn lemma_ram_read_back(m: Cpu2Memory, n: Cpu2Memory, o: Cpu2Memory, a: u16, b: u16, value: u8, r: u8)
    requires
        m.inv(),
        m.writes(n, a, value),
        n.reads(o, b, r),
    ensures
        a == b ==> r == value,
        a != b ==> r == m.ram_view()[b as int],
{
}


/// Law: on the recording bus, a tick that counts its cycle makes exactly one access (a read
/// or a write, logged), and a tick that does not count makes none.
pub proof fn lemma_tick_logs_one_access(c: Cpu2<Cpu2Memory>, n: Cpu2<Cpu2Memory>, k: u8)
    requires
        c.wf(),
        c.tick_rel(n, Ok::<u8, UnknownOpcode>(k)),
    ensures
        k == 0 || k == 1,
        k == 1 ==> n.bus_state().log().len() == c.bus_state().log().len() + 1,
        k == 0 ==> n.bus_state().log() == c.bus_state().log(),
{
    if c.in_interrupt() {
        c.lemma_interrupt_tick_accesses_bus(n, Ok::<u8, UnknownOpcode>(k));
        let ic = interrupt_state(c.regs());
        let v = choose|v: u8| #[trigger] bus(c.bus_state(), interrupt_access(ic, ic.pending.unwrap().0,
            ic.pending.unwrap().1), n.bus_state(), v) && n.regs() == (if bump(interrupt_effect(ic, v)).cycle == 8 {
                Core { cycle: 1, pending: None, interrupting: false, ..bump(interrupt_effect(ic, v)) }
            } else {
                bump(interrupt_effect(ic, v))
            });
    } else {
        let mid = choose|mid: Cpu2<Cpu2Memory>| #[trigger] c.starts(mid) && mid.ends(n, Ok::<u8, UnknownOpcode>(k));
        assert(group_of(mid.regs().opcode) != Group::Unknown);
        let v = choose|v: u8| #[trigger] bus(mid.bus_state(), cycle_access(mid.regs()), n.bus_state(), v)
            && n.regs() == bump(cycle_effect(mid.regs(), v))
            && Ok::<u8, UnknownOpcode>(k) == Ok::<u8, UnknownOpcode>(if n.regs().no_increment { 0 } else { 1 });
        if c.regs().finished {
            let f = choose|f: u8| #[trigger] c.bus_state().reads(mid.bus_state(), c.regs().pc, f)
                && mid.regs() == fetch_next(c.regs(), f);
            lemma_effect_progress(mid.regs(), v);
            assert(n.bus_state() == mid.bus_state());
        } else {
            assert(mid == c);
            c.lemma_tick_counts_bus_cycles(n, k);
        }
    }
}

/// Through a run of ticks inside one instruction (no interrupt pending), the opcode, the
/// absence of a pending interrupt and of an interrupt sequence stay as after the fetch.
proof fn lemma_run_keeps_opcode<T: Memory>(h: Seq<Cpu2<T>>, q: Seq<u8>, k: int)
    requires
        Cpu2::<T>::run(h, q),
        1 <= k <= q.len(),
        h[1].regs().pending is None,
        !h[1].regs().interrupting,
    ensures
        h[k].regs().opcode == h[1].regs().opcode,
        h[k].regs().pending is None,
        !h[k].regs().interrupting,
    decreases k,
{
    if k > 1 {
        lemma_run_keeps_opcode(h, q, k - 1);
        let j = k - 1;
        assert(Cpu2::<T>::link(h, q, j));
        let c = h[j];
        let mid = choose|mid: Cpu2<T>| #[trigger] c.starts(mid) && mid.ends(h[j + 1], Ok::<u8, UnknownOpcode>(q[j]));
        assert(mid == c);
        let v = choose|v: u8| #[trigger] bus(c.bus_state(), cycle_access(c.regs()), h[j + 1].bus_state(), v)
            && h[j + 1].regs() == bump(cycle_effect(c.regs(), v))
            && Ok::<u8, UnknownOpcode>(q[j]) == Ok::<u8, UnknownOpcode>(if h[j + 1].regs().no_increment { 0 } else { 1 });
        crate::cpu::spec::lemma_effect_keeps(c.regs(), v);
    }
}

/// Law: a run that starts between instructions with no interrupt pending can stop on an
/// unknown opcode only at its first tick, on the opcode that the bus gives at PC: an
/// instruction once fetched as a known one runs to its end.
pub proof fn lemma_fault_is_first_opcode<T: Memory>(h: Seq<Cpu2<T>>, q: Seq<u8>, d: Cpu2<T>,
    e: UnknownOpcode)
    requires
        Cpu2::<T>::run(h, q),
        h[0].wf(),
        h[0].between_instructions(),
        h[0].regs().pending is None,
        q.len() == 0 || !h.last().between_instructions(),
        h.last().tick_rel(d, Err::<u8, UnknownOpcode>(e)),
    ensures
        q.len() == 0,
        exists|n: T| #[trigger] h[0].bus_state().reads(n, h[0].regs().pc, e.opcode),
        group_of(e.opcode) == Group::Unknown,
{
    let h0 = h[0];
    if q.len() == 0 {
        let mid = choose|mid: Cpu2<T>| #[trigger] h0.starts(mid) && mid.ends(d, Err::<u8, UnknownOpcode>(e));
        let f = choose|f: u8| #[trigger] h0.bus_state().reads(mid.bus_state(), h0.regs().pc, f)
            && mid.regs() == fetch_next(h0.regs(), f);
    } else {
        assert(Cpu2::<T>::link(h, q, 0));
        let mid = choose|mid: Cpu2<T>| #[trigger] h0.starts(mid) && mid.ends(h[1], Ok::<u8, UnknownOpcode>(q[0]));
        let f = choose|f: u8| #[trigger] h0.bus_state().reads(mid.bus_state(), h0.regs().pc, f)
            && mid.regs() == fetch_next(h0.regs(), f);
        let v = choose|v: u8| #[trigger] bus(mid.bus_state(), cycle_access(mid.regs()), h[1].bus_state(), v)
            && h[1].regs() == bump(cycle_effect(mid.regs(), v))
            && Ok::<u8, UnknownOpcode>(q[0]) == Ok::<u8, UnknownOpcode>(if h[1].regs().no_increment { 0 } else { 1 });
        crate::cpu::spec::lemma_effect_keeps(mid.regs(), v);
        assert(group_of(h[1].regs().opcode) != Group::Unknown);
        lemma_run_keeps_opcode(h, q, q.len() as int);
        let last = h.last();
        assert(last == h[q.len() as int]);
        let m2 = choose|m2: Cpu2<T>| #[trigger] last.starts(m2) && m2.ends(d, Err::<u8, UnknownOpcode>(e));
        assert(m2 == last);
        assert(false);
    }
}

/// Where a relative branch lands: the PC after its operand plus the signed offset.
pub open spec fn branch_target(pc: u16, offset: u8) -> u16 {
    if offset < 0x80 {
        crate::cpu::spec::wadd16(pc, offset as u16)
    } else {
        crate::cpu::spec::wsub16(pc, (256 - offset) as u16)
    }
}

/// The four cycles of a branch: the fetch, the operand, the decision and the last cycle.
proof fn lemma_branch_effects(c: Core, v: u8)
    requires
        group_of(c.opcode) == Group::Branch,
    ensures
        c.cycle < 2 ==> cycle_access(c) == Access::Idle && cycle_effect(c, v) == c,
        c.cycle == 2 ==> cycle_access(c) == Access::Read(c.pc)
            && cycle_effect(c, v) == crate::cpu::spec::low_fetched(c, v),
        c.cycle == 3 && crate::cpu::spec::branch_taken(c) ==> cycle_access(c) == Access::Read(c.pc)
            && cycle_effect(c, v) == (Core {
                page_crossed: ((c.pc ^ branch_target(c.pc, c.low_byte)) & 0xff00) > 0,
                address: branch_target(c.pc, c.low_byte),
                pc: (c.pc & 0xff00) | ((((c.pc & 0xff) + c.low_byte as u16) as u16) & 0xff),
                pc_changed: true,
                ..c
            }),
        c.cycle == 3 && !crate::cpu::spec::branch_taken(c) ==> cycle_access(c) == Access::Idle
            && cycle_effect(c, v) == (Core { page_crossed: false, no_increment: true, ..c }),
        c.cycle >= 4 && c.page_crossed ==> cycle_access(c) == Access::Read(c.pc)
            && cycle_effect(c, v) == (Core { pc: c.address, finished: true, ..c }),
        c.cycle >= 4 && !c.page_crossed ==> cycle_access(c) == Access::Idle
            && cycle_effect(c, v) == (Core { no_increment: true, finished: true, ..c }),
{
    reveal(cycle_access);
    reveal(cycle_effect);
}

/// Law: on any bus, a BNE run from the start of the instruction (no interrupt pending) takes four
/// ticks and counts 2 cycles when Z is set (it falls through to the next instruction),
/// 3 when it branches inside the page of the next instruction, and 4 when it branches
/// to another page; taken, it lands on the target.
pub proof fn lemma_bne_timing<T: Memory>(h: Seq<Cpu2<T>>, q: Seq<u8>, offset: u8)
    requires
        Cpu2::<T>::run(h, q),
        q.len() > 0,
        h[0].wf(),
        h[0].between_instructions(),
        h[0].regs().pending is None,
        h.last().between_instructions(),
        bne_at(h[0].bus_state(), h[0].regs().pc, offset),
    ensures
        ({
            let p2 = crate::cpu::spec::wadd16(crate::cpu::spec::wadd16(h[0].regs().pc, 1), 1);
            let t = branch_target(p2, offset);
            let z = h[0].regs().p & 0x02 != 0;
            &&& q.len() == 4
            &&& z ==> total(q) == 2 && h.last().regs().pc == p2
            &&& !z && (p2 & 0xff00) == (t & 0xff00) ==> total(q) == 3 && h.last().regs().pc == t
            &&& !z && (p2 & 0xff00) != (t & 0xff00) ==> total(q) == 4 && h.last().regs().pc == t
        }),
{
    let h0 = h[0];
    let pc = h0.regs().pc;
    // the fetch
    assert(Cpu2::<T>::link(h, q, 0));
    let mid = choose|mid: Cpu2<T>| #[trigger] h0.starts(mid) && mid.ends(h[1], Ok::<u8, UnknownOpcode>(q[0]));
    let v0 = choose|v: u8| #[trigger] h0.bus_state().reads(mid.bus_state(), pc, v)
        && mid.regs() == fetch_next(h0.regs(), v);
    assert(mid.regs().opcode == crate::cpu::opcodes::BNE);
    assert(group_of(crate::cpu::opcodes::BNE) == Group::Branch);
    let h1 = h[1];
    let vm = choose|v: u8| #[trigger] bus(mid.bus_state(), cycle_access(mid.regs()), h1.bus_state(), v)
        && h1.regs() == bump(cycle_effect(mid.regs(), v))
        && Ok::<u8, UnknownOpcode>(q[0]) == Ok::<u8, UnknownOpcode>(if h1.regs().no_increment { 0 } else { 1 });
    lemma_branch_effects(mid.regs(), vm);
    assert(h1.bus_state() == mid.bus_state());
    assert(h1.regs() == bump(mid.regs()));
    assert(q[0] == 1);
    assert(!h1.regs().finished);
    assert(q.len() >= 2);
    // the operand
    assert(Cpu2::<T>::link(h, q, 1));
    lemma_branch_effects(h1.regs(), offset);
    let h2 = h[2];
    let v1 = choose|v: u8| #[trigger] bus(h1.bus_state(), cycle_access(h1.regs()), h2.bus_state(), v)
        && h2.regs() == bump(cycle_effect(h1.regs(), v))
        && Ok::<u8, UnknownOpcode>(q[1]) == Ok::<u8, UnknownOpcode>(if h2.regs().no_increment { 0 } else { 1 });
    assert(v1 == offset);
    assert(q[1] == 1);
    assert(!h2.regs().finished);
    assert(q.len() >= 3);
    // the decision
    assert(Cpu2::<T>::link(h, q, 2));
    let h3 = h[3];
    let v2 = choose|v: u8| #[trigger] bus(h2.bus_state(), cycle_access(h2.regs()), h3.bus_state(), v)
        && h3.regs() == bump(cycle_effect(h2.regs(), v))
        && Ok::<u8, UnknownOpcode>(q[2]) == Ok::<u8, UnknownOpcode>(if h3.regs().no_increment { 0 } else { 1 });
    lemma_branch_effects(h2.regs(), v2);
    assert(!h3.regs().finished);
    assert(q.len() >= 4);
    // the last cycle
    assert(Cpu2::<T>::link(h, q, 3));
    let h4 = h[4];
    let v3 = choose|v: u8| #[trigger] bus(h3.bus_state(), cycle_access(h3.regs()), h4.bus_state(), v)
        && h4.regs() == bump(cycle_effect(h3.regs(), v))
        && Ok::<u8, UnknownOpcode>(q[3]) == Ok::<u8, UnknownOpcode>(if h4.regs().no_increment { 0 } else { 1 });
    lemma_branch_effects(h3.regs(), v3);
    assert(h4.regs().finished);
    if q.len() > 4 {
        assert(Cpu2::<T>::link(h, q, 4));
    }
    assert(q.len() == 4);
    let q1 = q.drop_last();
    let q2 = q1.drop_last();
    let q3 = q2.drop_last();
    let q4 = q3.drop_last();
    assert(q4.len() == 0 && total(q4) == 0);
    assert(total(q3) == q[0]);
    assert(total(q2) == q[0] + q[1]);
    assert(total(q1) == q[0] + q[1] + q[2]);
    assert(total(q) == q[0] + q[1] + q[2] + q[3]);
    let p2 = h2.regs().pc;
    let t = branch_target(p2, offset);
    if (h0.regs().p & 0x02 != 0) == false {
        assert(((p2 ^ t) & 0xff00) > 0 <==> (p2 & 0xff00) != (t & 0xff00)) by (bit_vector);
        if (p2 & 0xff00) == (t & 0xff00) {
            lemma_branch_same_page(p2, offset, t);
        }
    }
}

/// Inside a page, the branch target keeps the high byte and adds the offset to the low one.
proof fn lemma_branch_same_page(p2: u16, offset: u8, t: u16)
    requires
        t == branch_target(p2, offset),
        (p2 & 0xff00) == (t & 0xff00),
    ensures
        (p2 & 0xff00) | ((((p2 & 0xff) + offset as u16) as u16) & 0xff) == t,
{
    let a = p2 as int;
    let o = offset as int;
    let ti = if o < 0x80 { (a + o) % 0x10000 } else { (a - (256 - o)) % 0x10000 };
    assert(t as int == ti);
    assert((p2 & 0xff00) == p2 - (p2 % 256) && (p2 & 0xff) == p2 % 256) by (bit_vector);
    assert((t & 0xff00) == t - (t % 256) && (t & 0xff) == t % 256) by (bit_vector);
    assert(ti % 256 == (a % 256 + o) % 256) by (nonlinear_arith)
        requires
            0 <= a < 0x10000,
            0 <= o < 256,
            ti == if o < 0x80 { (a + o) % 0x10000 } else { (a - (256 - o)) % 0x10000 };
    let lo: u16 = (((p2 & 0xff) + offset as u16) as u16) & 0xff;
    assert(lo == ((p2 & 0xff) + offset as u16) % 256 && lo < 256) by (bit_vector)
        requires lo == (((p2 & 0xff) + offset as u16) as u16) & 0xff;
    assert(((p2 & 0xff00) | lo) == (p2 & 0xff00) + lo) by (bit_vector)
        requires lo < 256;
    assert(t == (t & 0xff00) + (t & 0xff)) by (bit_vector);
}


/// Law: `run_one_instruction` on a BNE (no interrupt pending) always succeeds, taking 2
/// cycles when Z is set, 3 when it branches inside the page of the next instruction and
/// 4 across a page, and leaves PC after the operand or at the target. The hypotheses are
/// what `run_one_instruction` ensures of its result.
pub proof fn lemma_bne_instruction<T: Memory>(c0: Cpu2<T>, c1: Cpu2<T>, r: Result<u8, UnknownOpcode>,
    offset: u8)
    requires
        c0.wf(),
        c0.between_instructions(),
        c0.regs().pending is None,
        bne_at(c0.bus_state(), c0.regs().pc, offset),
        r matches Ok(c) ==> c1.between_instructions() && exists|h: Seq<Cpu2<T>>, q: Seq<u8>|
            #[trigger] Cpu2::<T>::run(h, q) && h[0] == c0 && h.last() == c1 && c == total(q)
                && q.len() > 0,
        r matches Err(e) ==> exists|h: Seq<Cpu2<T>>, q: Seq<u8>|
            #[trigger] Cpu2::<T>::run(h, q) && h[0] == c0 && (q.len() == 0
                || !h.last().between_instructions()) && h.last().tick_rel(c1, Err::<u8, UnknownOpcode>(e)),
    ensures
        r is Ok,
        ({
            let p2 = crate::cpu::spec::wadd16(crate::cpu::spec::wadd16(c0.regs().pc, 1), 1);
            let t = branch_target(p2, offset);
            let z = c0.regs().p & 0x02 != 0;
            &&& z ==> r == Ok::<u8, UnknownOpcode>(2) && c1.regs().pc == p2
            &&& !z && (p2 & 0xff00) == (t & 0xff00) ==> r == Ok::<u8, UnknownOpcode>(3) && c1.regs().pc == t
            &&& !z && (p2 & 0xff00) != (t & 0xff00) ==> r == Ok::<u8, UnknownOpcode>(4) && c1.regs().pc == t
        }),
{
    match r {
        Ok(c) => {
            let (h, q) = choose|h: Seq<Cpu2<T>>, q: Seq<u8>|
                #[trigger] Cpu2::<T>::run(h, q) && h[0] == c0 && h.last() == c1 && c == total(q)
                    && q.len() > 0;
            lemma_bne_timing(h, q, offset);
        },
        Err(e) => {
            let (h, q) = choose|h: Seq<Cpu2<T>>, q: Seq<u8>|
                #[trigger] Cpu2::<T>::run(h, q) && h[0] == c0 && (q.len() == 0
                    || !h.last().between_instructions()) && h.last().tick_rel(c1, Err::<u8, UnknownOpcode>(e));
            lemma_fault_is_first_opcode(h, q, c1, e);
            let n = choose|n: T| #[trigger] c0.bus_state().reads(n, c0.regs().pc, e.opcode);
            assert(group_of(crate::cpu::opcodes::BNE) == Group::Branch);
        },
    }
}


/// Every read of `address` from the bus `m` gives `v`.
pub open spec fn reads_as<T: Memory>(m: T, address: u16, v: u8) -> bool {
    forall|n: T, w: u8| #[trigger] m.reads(n, address, w) ==> w == v
}

/// The bus `m` holds a BNE at `pc` with the operand `offset`: a read of `pc` gives `BNE`,
/// and after it a read of the next address gives `offset`.
pub open spec fn bne_at<T: Memory>(m: T, pc: u16, offset: u8) -> bool {
    forall|n: T, w: u8| #[trigger] m.reads(n, pc, w) ==> w == crate::cpu::opcodes::BNE
        && reads_as(n, crate::cpu::spec::wadd16(pc, 1), offset)
}

/// On the recording RAM, the two bytes at `pc` make a BNE.
pub proof fn lemma_ram_bne(m: Cpu2Memory, pc: u16, offset: u8)
    requires
        m.ram_view()[pc as int] == crate::cpu::opcodes::BNE,
        m.ram_view()[crate::cpu::spec::wadd16(pc, 1) as int] == offset,
    ensures
        bne_at(m, pc, offset),
{
}

/// On the console's bus, two bytes of the cartridge at `pc` make a BNE.
pub proof fn lemma_cartridge_bne(m: NesMemory, pc: u16, offset: u8)
    requires
        0x8000 <= pc < 0xffff,
        m.mapper.prg_byte(pc) == crate::cpu::opcodes::BNE,
        m.mapper.prg_byte((pc + 1) as u16) == offset,
    ensures
        bne_at(m, pc, offset),
{
    assert(crate::cpu::spec::wadd16(pc, 1) == (pc + 1) as u16);
}

} // verus!
