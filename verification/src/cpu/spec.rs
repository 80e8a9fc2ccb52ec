//! The 6502 cycle by cycle, after the bus activity tables of
//! `6502_cpu.txt`: what each cycle of each instruction family reads or
//! writes, and what it does to the registers.
use vstd::prelude::*;
use crate::memory::Memory;
use crate::cpu::opcodes::{
    flag_of, group_of, indexed_by_y, last_cycle, read_kind_of, rmw_kind_of, store_reg_of, transfer_kind_of,
    Group, ReadKind, RmwKind, StoreReg, TransferKind, CPY_IMM, PHP, PLA,
};
use crate::cpu::status_flags::{with_flag, with_nz, FLAG_B, FLAG_C, FLAG_D, FLAG_I, FLAG_N, FLAG_V, FLAG_Z};

verus! {

/// `x + y` modulo 256.
pub open spec fn wadd8(x: u8, y: u8) -> u8 {
    vstd::wrapping::u8_specs::wrapping_add(x, y)
}

/// `x - y` modulo 256.
pub open spec fn wsub8(x: u8, y: u8) -> u8 {
    vstd::wrapping::u8_specs::wrapping_sub(x, y)
}

/// `x + y` modulo 65536.
pub open spec fn wadd16(x: u16, y: u16) -> u16 {
    vstd::wrapping::u16_specs::wrapping_add(x, y)
}

/// `x - y` modulo 65536.
pub open spec fn wsub16(x: u16, y: u16) -> u16 {
    vstd::wrapping::u16_specs::wrapping_sub(x, y)
}

/// The address of stack slot `s`, in page one.
pub open spec fn stack_at(s: u8) -> u16 {
    (0x100 + s) as u16
}

/// The carry as a bit.
pub open spec fn carry_bit(p: u8) -> u8 {
    if p & FLAG_C != 0 {
        1
    } else {
        0
    }
}

/// What one cycle does on the bus.
#[derive(Clone, Copy, PartialEq, Eq, Structural, Debug)]
pub enum Access {
    /// No access.
    Idle,
    /// A read of the address.
    Read(u16),
    /// A write of the byte to the address.
    Write(u16, u8),
}

/// The registers and the state of the instruction under way.
pub struct Core {
    pub a: u8,
    pub x: u8,
    pub y: u8,
    pub pc: u16,
    pub s: u8,
    pub p: u8,
    /// The cycle of the current instruction, from 1.
    pub cycle: u8,
    pub cycles: u128,
    /// The current cycle does not count.
    pub no_increment: bool,
    pub low_byte: u8,
    pub pointer: u8,
    /// The current instruction is complete.
    pub finished: bool,
    pub opcode: u8,
    pub value: u8,
    pub address: u16,
    pub page_crossed: bool,
    /// The vector (low and high byte addresses) of an interrupt to take
    /// before the next instruction.
    pub pending: Option<(u16, u16)>,
    pub pc_changed: bool,
    /// The interrupt sequence is under way.
    pub interrupting: bool,
}

/// Whether `access` took `m` to `n`, a read giving `value`.
pub open spec fn bus<T: Memory>(m: T, access: Access, n: T, value: u8) -> bool {
    match access {
        Access::Idle => n == m,
        Access::Read(address) => m.reads(n, address, value),
        Access::Write(address, w) => m.writes(n, address, w),
    }
}

/// `c` one cycle further.
pub open spec fn bump(c: Core) -> Core {
    Core { cycle: (c.cycle + 1) as u8, ..c }
}

/// The start of an instruction: `opcode` was read at PC.
pub open spec fn fetch_next(c: Core, opcode: u8) -> Core {
    Core {
        opcode,
        pc: wadd16(c.pc, 1),
        cycle: 1,
        no_increment: false,
        finished: false,
        pc_changed: false,
        ..c
    }
}

/// A byte read as a two's complement number.
pub open spec fn signed8(x: u8) -> int {
    if x < 128 { x as int } else { x - 256 }
}

/// ADC: A plus `v` plus the carry, kept to eight bits; C is set when the sum passes 255,
/// V when the sum of the signed values leaves -128..127, and N and Z follow the result.
pub open spec fn adc(a: u8, v: u8, p: u8) -> (u8, u8) {
    let carry: int = if p & FLAG_C != 0 { 1 } else { 0 };
    let sum: int = a + v + carry;
    let signed_sum: int = signed8(a) + signed8(v) + carry;
    let r = (sum % 256) as u8;
    let p1 = with_flag(p, FLAG_C, sum > 255);
    let p2 = with_flag(p1, FLAG_V, signed_sum < -128 || signed_sum > 127);
    (r, with_nz(p2, r))
}

/// ADC as the processor computes it: a 16-bit sum for the carry, and the carry into bit 7
/// of the low seven bits for the overflow.
pub open spec fn adc_bits(a: u8, v: u8, p: u8) -> (u8, u8) {
    let carry: u16 = if p & FLAG_C != 0 {
        1
    } else {
        0
    };
    let result: u16 = (a as u16 + v as u16 + carry) as u16;
    let carry6: u8 = ((a & 0x7f) + (v & 0x7f) + carry) as u8;
    let p1 = with_flag(p, FLAG_C, result & 0x100 != 0);
    let p2 = with_flag(p1, FLAG_V, (p1 & FLAG_C != 0) != (carry6 & 0x80 != 0));
    let r = result as u8;
    (r, with_nz(p2, r))
}

/// The processor's ADC is the arithmetic one.
pub proof fn lemma_adc_bits(a: u8, v: u8, p: u8)
    ensures
        adc(a, v, p) == adc_bits(a, v, p),
{
    let c: u16 = if p & FLAG_C != 0 { 1 } else { 0 };
    let result: u16 = (a as u16 + v as u16 + c) as u16;
    let carry6: u8 = ((a & 0x7f) + (v & 0x7f) + c) as u8;
    assert(result == a + v + c);
    assert((result & 0x100 != 0) == (result >= 256) && (result as u8) == result % 256) by (bit_vector)
        requires result < 512;
    crate::bit_facts::lemma_u8_fields();
    assert((a & 0x7f) == a % 128 && (v & 0x7f) == v % 128);
    assert(carry6 == a % 128 + v % 128 + c);
    assert((carry6 & 0x80) == 128 * (carry6 / 128));
    let p1 = with_flag(p, FLAG_C, result & 0x100 != 0);
    lemma_flag_read_back(p, FLAG_C, result & 0x100 != 0);
    assert((p1 & FLAG_C != 0) == (result & 0x100 != 0));
    let k = a % 128 + v % 128 + c;
    assert(signed8(a) + signed8(v) + c == k - 128 * (a / 128 + v / 128));
    assert(a + v + c == k + 128 * (a / 128 + v / 128));
}

/// SBC: binary subtraction is ADC of the complement; in decimal mode the
/// nibbles are subtracted and adjusted.
pub open spec fn sbc(a: u8, v: u8, p: u8) -> (u8, u8) {
    if p & FLAG_D != 0 {
        let c: u8 = if p & FLAG_C == 0 {
            1
        } else {
            0
        };
        let diff: u16 = wsub16(wsub16(a as u16, v as u16), c as u16);
        let al0: u8 = wsub8(wsub8(a & 0x0f, v & 0x0f), c);
        let al: u8 = if al0 & 0x80 != 0 {
            wsub8(al0, 6)
        } else {
            al0
        };
        let ah0: u8 = wsub8(
            wsub8(a >> 4u8, v >> 4u8),
            if al & 0x80 != 0 {
                1
            } else {
                0
            },
        );
        let p1 = with_flag(p, FLAG_Z, (diff & 0xff) == 0);
        let p2 = with_flag(p1, FLAG_N, diff & 0x80 != 0);
        let p3 = with_flag(p2, FLAG_V, (a ^ v) & (a ^ ((diff & 0xff) as u8)) & 0x80 != 0);
        let p4 = with_flag(p3, FLAG_C, diff & 0xff00 == 0);
        let ah: u8 = if ah0 & 0x80 != 0 {
            wsub8(ah0, 6)
        } else {
            ah0
        };
        ((ah << 4u8) | (al & 0x0f), p4)
    } else {
        adc(a, v ^ 0xff, p)
    }
}

/// BIT: Z from `v & a`, N and V from bits 7 and 6 of `v`.
pub open spec fn bit_flags(p: u8, a: u8, v: u8) -> u8 {
    let p1 = with_flag(p, FLAG_Z, v & a == 0);
    let p2 = with_flag(p1, FLAG_N, v & 0x80 != 0);
    with_flag(p2, FLAG_V, v & 0x40 != 0)
}

/// A compare of `register` with `v`: C when `register >= v`, N and Z from
/// the difference.
pub open spec fn compare(p: u8, register: u8, v: u8) -> u8 {
    with_nz(with_flag(p, FLAG_C, register >= v), wsub8(register, v))
}

/// A read instruction applied to the byte `v` it read; the instruction completes.
pub open spec fn read_op(c: Core, v: u8) -> Core {
    match read_kind_of(c.opcode) {
        ReadKind::Lda => Core { a: v, p: with_nz(c.p, v), finished: true, ..c },
        ReadKind::Ldx => Core { x: v, p: with_nz(c.p, v), finished: true, ..c },
        ReadKind::Ldy => Core { y: v, p: with_nz(c.p, v), finished: true, ..c },
        ReadKind::Eor => Core { a: c.a ^ v, p: with_nz(c.p, c.a ^ v), finished: true, ..c },
        ReadKind::And => Core { a: c.a & v, p: with_nz(c.p, c.a & v), finished: true, ..c },
        ReadKind::Ora => Core { a: c.a | v, p: with_nz(c.p, c.a | v), finished: true, ..c },
        ReadKind::Adc => {
            let (a, p) = adc(c.a, v, c.p);
            Core { a, p: with_nz(p, a), finished: true, ..c }
        },
        ReadKind::Sbc => {
            let (a, p) = sbc(c.a, v, c.p);
            Core { a, p: with_nz(p, a), finished: true, ..c }
        },
        ReadKind::Cmp => Core { p: compare(c.p, c.a, v), finished: true, ..c },
        ReadKind::Cpx => Core { p: compare(c.p, c.x, v), finished: true, ..c },
        ReadKind::Cpy => Core { p: compare(c.p, c.y, v), finished: true, ..c },
        ReadKind::Bit => Core { p: bit_flags(c.p, c.a, v), finished: true, ..c },
    }
}

/// A shift, rotation, increment or decrement of `v`: the new byte, and the
/// flags before N and Z are set from it.
pub open spec fn rmw(kind: RmwKind, v: u8, p: u8) -> (u8, u8) {
    match kind {
        RmwKind::Asl => (v << 1u8, with_flag(p, FLAG_C, v & 0x80 != 0)),
        RmwKind::Lsr => (v >> 1u8, with_flag(p, FLAG_C, v & 1 != 0)),
        RmwKind::Rol => ((v << 1u8) | carry_bit(p), with_flag(p, FLAG_C, v & 0x80 != 0)),
        RmwKind::Ror => ((v >> 1u8) | (carry_bit(p) << 7u8), with_flag(p, FLAG_C, v & 1 != 0)),
        RmwKind::Inc => (wadd8(v, 1), p),
        RmwKind::Dec => (wsub8(v, 1), p),
    }
}

/// The last cycle of a read-modify-write: the new byte is written and sets N and Z.
pub open spec fn rmw_done(c: Core) -> Core {
    let (r, p) = rmw(rmw_kind_of(c.opcode), c.value, c.p);
    Core { p: with_nz(p, r), finished: true, ..c }
}

/// The byte the last cycle of a read-modify-write writes.
pub open spec fn rmw_written(c: Core) -> u8 {
    rmw(rmw_kind_of(c.opcode), c.value, c.p).0
}

/// The register a store instruction writes.
pub open spec fn stored(c: Core) -> u8 {
    match store_reg_of(c.opcode) {
        StoreReg::A => c.a,
        StoreReg::X => c.x,
        StoreReg::Y => c.y,
    }
}

/// The index register of an indexed instruction.
pub open spec fn index_of(c: Core) -> u8 {
    if indexed_by_y(c.opcode) {
        c.y
    } else {
        c.x
    }
}

/// The low address byte with `index` added, within its page.
pub open spec fn low_indexed(c: Core, index: u8) -> u8 {
    (((c.low_byte as u16 + index as u16) as u16) & 0xff) as u8
}

/// The first operand byte was read at PC into the low byte.
pub open spec fn low_fetched(c: Core, v: u8) -> Core {
    Core { low_byte: v, pc: wadd16(c.pc, 1), ..c }
}

/// The second operand byte was read at PC: the absolute address is complete.
pub open spec fn high_fetched(c: Core, v: u8) -> Core {
    Core { address: (v as u16) << 8u16 | c.low_byte as u16, pc: wadd16(c.pc, 1), ..c }
}

/// The zero page address was read at PC.
pub open spec fn zp_fetched(c: Core, v: u8) -> Core {
    Core { address: v as u16, pc: wadd16(c.pc, 1), ..c }
}

/// The high byte of an indexed address was read: `index` is added, and
/// the address first taken keeps the high byte of the base.
pub open spec fn indexed(c: Core, high: u8, index: u8) -> Core {
    let old = (high as u16) << 8u16 | c.low_byte as u16;
    let new = wadd16(old, index as u16);
    let crossed = ((old ^ new) & 0xff00) > 0;
    Core {
        page_crossed: crossed,
        address: if crossed {
            wsub16(new, 0x100)
        } else {
            new
        },
        ..c
    }
}

/// One cycle of the interrupt sequence whose vector is at `low` and `high`:
/// PC and P pushed, I set, PC loaded from the vector.
pub open spec fn interrupt_access(c: Core, low: u16, high: u16) -> Access {
    if c.cycle == 2 {
        Access::Read(c.pc)
    } else if c.cycle == 3 {
        Access::Write(stack_at(c.s), ((c.pc & 0xff00) >> 8u16) as u8)
    } else if c.cycle == 4 {
        Access::Write(stack_at(c.s), (c.pc & 0xff) as u8)
    } else if c.cycle == 5 {
        Access::Write(stack_at(c.s), c.p)
    } else if c.cycle == 6 {
        Access::Read(low)
    } else if c.cycle == 7 {
        Access::Read(high)
    } else {
        Access::Idle
    }
}

/// What a cycle of the interrupt sequence does to the registers.
pub open spec fn interrupt_effect(c: Core, v: u8) -> Core {
    if c.cycle == 3 {
        Core { s: wsub8(c.s, 1), p: with_flag(c.p, FLAG_B, true), ..c }
    } else if c.cycle == 4 {
        Core { s: wsub8(c.s, 1), ..c }
    } else if c.cycle == 5 {
        Core { s: wsub8(c.s, 1), p: with_flag(c.p, FLAG_I, true), ..c }
    } else if c.cycle == 6 {
        Core { low_byte: v, ..c }
    } else if c.cycle == 7 {
        Core { pc: c.low_byte as u16 | (v as u16) << 8u16, finished: true, ..c }
    } else {
        c
    }
}

/// RTI, RTS and the pulls read the stack slot above S from cycle 4 on.
pub open spec fn popped(c: Core) -> Access {
    Access::Read(stack_at(wadd8(c.s, 1)))
}

/// The bus activity of cycle `c.cycle` of the current instruction.
#[verifier::opaque]
pub open spec fn cycle_access(c: Core) -> Access {
    let k = c.cycle;
    if k < 2 {
        Access::Idle
    } else {
        match group_of(c.opcode) {
            Group::Flag | Group::Nop | Group::Transfer | Group::ShiftA | Group::CompareImm
            | Group::ReadImm => Access::Read(c.pc),
            Group::Brk => interrupt_access(c, 0xfffe, 0xffff),
            Group::Rti => if k == 2 {
                Access::Read(c.pc)
            } else if k == 3 {
                Access::Read(stack_at(c.s))
            } else {
                popped(c)
            },
            Group::Rts => if k == 2 || k == 6 {
                Access::Read(c.pc)
            } else if k == 3 {
                Access::Read(stack_at(c.s))
            } else {
                popped(c)
            },
            Group::Push => if k == 2 {
                Access::Read(c.pc)
            } else if c.opcode == PHP {
                Access::Write(stack_at(c.s), with_flag(c.p, FLAG_B, true))
            } else {
                Access::Write(stack_at(c.s), c.a)
            },
            Group::Pull => if k == 2 {
                Access::Read(c.pc)
            } else if k == 3 {
                Access::Read(stack_at(c.s))
            } else {
                popped(c)
            },
            Group::JmpInd => if k <= 3 {
                Access::Read(c.pc)
            } else if k == 4 {
                Access::Read(c.address)
            } else {
                Access::Read((c.address & 0xff00) | (wadd16(c.address, 1) & 0xff))
            },
            Group::Jmp => Access::Read(c.pc),
            Group::Jsr => if k == 2 || k == 6 {
                Access::Read(c.pc)
            } else if k == 3 {
                Access::Read(stack_at(c.s))
            } else if k == 4 {
                Access::Write(stack_at(c.s), ((c.pc & 0xff00) >> 8u16) as u8)
            } else {
                Access::Write(stack_at(c.s), c.pc as u8)
            },
            Group::ReadAbs => if k <= 3 {
                Access::Read(c.pc)
            } else {
                Access::Read(c.address)
            },
            Group::RmwAbs => if k <= 3 {
                Access::Read(c.pc)
            } else if k == 4 {
                Access::Read(c.address)
            } else if k == 5 {
                Access::Write(c.address, c.value)
            } else {
                Access::Write(c.address, rmw_written(c))
            },
            Group::WriteAbs => if k <= 3 {
                Access::Read(c.pc)
            } else {
                Access::Write(c.address, stored(c))
            },
            Group::ReadZp => if k == 2 {
                Access::Read(c.pc)
            } else {
                Access::Read(c.address)
            },
            Group::RmwZp => if k == 2 {
                Access::Read(c.pc)
            } else if k == 3 {
                Access::Read(c.address)
            } else if k == 4 {
                Access::Write(c.address, c.value)
            } else {
                Access::Write(c.address, rmw_written(c))
            },
            Group::WriteZp => if k == 2 {
                Access::Read(c.pc)
            } else {
                Access::Write(c.address, stored(c))
            },
            Group::ReadZpIdx => if k == 2 {
                Access::Read(c.pc)
            } else {
                Access::Read(c.address)
            },
            Group::RmwZpX => if k == 2 {
                Access::Read(c.pc)
            } else if k <= 4 {
                Access::Read(c.address)
            } else if k == 5 {
                Access::Write(c.address, c.value)
            } else {
                Access::Write(c.address, rmw_written(c))
            },
            Group::WriteZpIdx => if k == 2 {
                Access::Read(c.pc)
            } else if k == 3 {
                Access::Read(c.address)
            } else {
                Access::Write(c.address, stored(c))
            },
            Group::ReadIndX => if k == 2 {
                Access::Read(c.pc)
            } else if k == 3 {
                Access::Read(c.low_byte as u16)
            } else if k == 5 {
                Access::Read(wadd16(c.address, 1) & 0xff)
            } else {
                Access::Read(c.address)
            },
            Group::WriteIndX => if k == 2 {
                Access::Read(c.pc)
            } else if k == 3 {
                Access::Read(c.pointer as u16)
            } else if k == 4 {
                Access::Read(c.address)
            } else if k == 5 {
                Access::Read(wadd16(c.address, 1) & 0xff)
            } else {
                Access::Write(c.address, c.a)
            },
            Group::ReadAbsIdx => if k <= 3 {
                Access::Read(c.pc)
            } else if k == 4 {
                Access::Read(c.address)
            } else if c.page_crossed {
                Access::Read(wadd16(c.address, 0x100))
            } else {
                Access::Idle
            },
            Group::RmwAbsX => if k <= 3 {
                Access::Read(c.pc)
            } else if k <= 5 {
                Access::Read(c.address)
            } else if k == 6 {
                Access::Write(c.address, c.value)
            } else {
                Access::Write(c.address, rmw_written(c))
            },
            Group::WriteAbsIdx => if k <= 3 {
                Access::Read(c.pc)
            } else if k == 4 {
                Access::Read(c.address)
            } else {
                Access::Write(c.address, c.a)
            },
            Group::ReadIndY => if k == 2 {
                Access::Read(c.pc)
            } else if k == 3 {
                Access::Read(c.pointer as u16)
            } else if k == 4 {
                Access::Read(((c.pointer as u16 + 1) as u16) & 0xff)
            } else if k == 5 {
                Access::Read(c.address)
            } else if c.page_crossed {
                Access::Read(wadd16(c.address, 0x100))
            } else {
                Access::Idle
            },
            Group::WriteIndY => if k == 2 {
                Access::Read(c.pc)
            } else if k == 3 {
                Access::Read(c.pointer as u16)
            } else if k == 4 {
                Access::Read(((c.pointer as u16 + 1) as u16) & 0xff)
            } else if k == 5 {
                Access::Read(c.address)
            } else if c.page_crossed {
                Access::Write(wadd16(c.address, 0x100), c.a)
            } else {
                Access::Write(c.address, c.a)
            },
            Group::Branch => if k == 2 {
                Access::Read(c.pc)
            } else if k == 3 {
                if branch_taken(c) {
                    Access::Read(c.pc)
                } else {
                    Access::Idle
                }
            } else if c.page_crossed {
                Access::Read(c.pc)
            } else {
                Access::Idle
            },
            Group::Unknown => Access::Idle,
        }
    }
}

/// The flag a branch tests has the value that takes it.
pub open spec fn branch_taken(c: Core) -> bool {
    ((c.p & flag_of(c.opcode).0) != 0) == flag_of(c.opcode).1
}

/// A register instruction: transfer, increment or decrement.
pub open spec fn transfer(c: Core) -> Core {
    match transfer_kind_of(c.opcode) {
        TransferKind::Tsx => Core { x: c.s, p: with_nz(c.p, c.s), ..c },
        TransferKind::Txs => Core { s: c.x, ..c },
        TransferKind::Tax => Core { x: c.a, p: with_nz(c.p, c.a), ..c },
        TransferKind::Txa => Core { a: c.x, p: with_nz(c.p, c.x), ..c },
        TransferKind::Tya => Core { a: c.y, p: with_nz(c.p, c.y), ..c },
        TransferKind::Tay => Core { y: c.a, p: with_nz(c.p, c.a), ..c },
        TransferKind::Dex => Core { x: wsub8(c.x, 1), p: with_nz(c.p, wsub8(c.x, 1)), ..c },
        TransferKind::Dey => Core { y: wsub8(c.y, 1), p: with_nz(c.p, wsub8(c.y, 1)), ..c },
        TransferKind::Inx => Core { x: wadd8(c.x, 1), p: with_nz(c.p, wadd8(c.x, 1)), ..c },
        TransferKind::Iny => Core { y: wadd8(c.y, 1), p: with_nz(c.p, wadd8(c.y, 1)), ..c },
    }
}

/// A shift or rotation of A: ASL sets N and Z twice, from the same byte.
pub open spec fn shift_a(c: Core) -> Core {
    let kind = rmw_kind_of(c.opcode);
    let (r, p) = rmw(kind, c.a, c.p);
    let p1 = if kind == RmwKind::Asl {
        with_nz(p, r)
    } else {
        p
    };
    Core { a: r, p: with_nz(p1, r), finished: true, ..c }
}

/// What cycle `c.cycle` of the current instruction does to the registers,
/// `v` being the byte it read (where it reads).
#[verifier::opaque]
pub open spec fn cycle_effect(c: Core, v: u8) -> Core {
    let k = c.cycle;
    if k < 2 {
        c
    } else {
        match group_of(c.opcode) {
            Group::Flag => Core {
                p: with_flag(c.p, flag_of(c.opcode).0, flag_of(c.opcode).1),
                finished: true,
                ..c
            },
            Group::Nop => Core { finished: true, ..c },
            Group::Brk => interrupt_effect(c, v),
            Group::Rti => if k == 4 {
                Core { s: wadd8(c.s, 1), p: v, ..c }
            } else if k == 5 {
                Core { s: wadd8(c.s, 1), pc: (c.pc & 0xff00) | v as u16, ..c }
            } else if k == 6 {
                Core { s: wadd8(c.s, 1), pc: (c.pc & 0xff) | (v as u16) << 8u16, finished: true, ..c }
            } else {
                c
            },
            Group::Rts => if k == 4 {
                Core { s: wadd8(c.s, 1), pc: (c.pc & 0xff00) | v as u16, ..c }
            } else if k == 5 {
                Core { s: wadd8(c.s, 1), pc: (c.pc & 0xff) | (v as u16) << 8u16, ..c }
            } else if k == 6 {
                Core { pc: wadd16(c.pc, 1), finished: true, ..c }
            } else {
                c
            },
            Group::Push => if k == 3 {
                Core {
                    s: wsub8(c.s, 1),
                    p: if c.opcode == PHP {
                        with_flag(c.p, FLAG_B, true)
                    } else {
                        c.p
                    },
                    finished: true,
                    ..c
                }
            } else {
                c
            },
            Group::Pull => if k == 4 {
                if c.opcode == PLA {
                    Core { s: wadd8(c.s, 1), a: v, p: with_nz(c.p, v), finished: true, ..c }
                } else {
                    Core { s: wadd8(c.s, 1), p: v, finished: true, ..c }
                }
            } else {
                c
            },
            Group::JmpInd => if k == 2 {
                low_fetched(c, v)
            } else if k == 3 {
                Core { address: (v as u16) << 8u16 | c.low_byte as u16, pc: wadd16(c.pc, 1), ..c }
            } else if k == 4 {
                Core { low_byte: v, ..c }
            } else {
                Core { pc: (v as u16) << 8u16 | c.low_byte as u16, finished: true, ..c }
            },
            Group::Jmp => if k == 2 {
                low_fetched(c, v)
            } else {
                Core { pc: (v as u16) << 8u16 | c.low_byte as u16, finished: true, ..c }
            },
            Group::Jsr => if k == 2 {
                low_fetched(c, v)
            } else if k == 4 || k == 5 {
                Core { s: wsub8(c.s, 1), ..c }
            } else if k == 6 {
                Core { pc: (v as u16) << 8u16 | c.low_byte as u16, finished: true, ..c }
            } else {
                c
            },
            Group::Transfer => Core { value: v, finished: true, ..transfer(c) },
            Group::ShiftA => shift_a(c),
            Group::CompareImm => {
                let register = if c.opcode == CPY_IMM {
                    c.y
                } else {
                    c.x
                };
                Core {
                    value: v,
                    pc: wadd16(c.pc, 1),
                    p: compare(c.p, register, v),
                    finished: true,
                    ..c
                }
            },
            Group::ReadImm => read_op(Core { value: v, pc: wadd16(c.pc, 1), ..c }, v),
            Group::ReadAbs => if k == 2 {
                low_fetched(c, v)
            } else if k == 3 {
                high_fetched(c, v)
            } else {
                read_op(c, v)
            },
            Group::RmwAbs => if k == 2 {
                low_fetched(c, v)
            } else if k == 3 {
                high_fetched(c, v)
            } else if k == 4 {
                Core { value: v, ..c }
            } else if k == 5 {
                c
            } else {
                rmw_done(c)
            },
            Group::WriteAbs => if k == 2 {
                low_fetched(c, v)
            } else if k == 3 {
                high_fetched(c, v)
            } else {
                Core { finished: true, ..c }
            },
            Group::ReadZp => if k == 2 {
                zp_fetched(c, v)
            } else {
                read_op(c, v)
            },
            Group::RmwZp => if k == 2 {
                zp_fetched(c, v)
            } else if k == 3 {
                Core { value: v, ..c }
            } else if k == 4 {
                c
            } else {
                rmw_done(c)
            },
            Group::WriteZp => if k == 2 {
                zp_fetched(c, v)
            } else {
                Core { finished: true, ..c }
            },
            Group::ReadZpIdx => if k == 2 {
                zp_fetched(c, v)
            } else if k == 3 {
                Core { address: wadd16(c.address, index_of(c) as u16) & 0xff, ..c }
            } else {
                read_op(c, v)
            },
            Group::RmwZpX => if k == 2 {
                zp_fetched(c, v)
            } else if k == 3 {
                Core { address: wadd16(c.address, c.x as u16) & 0xff, ..c }
            } else if k == 4 {
                Core { value: v, ..c }
            } else if k == 5 {
                c
            } else {
                rmw_done(c)
            },
            Group::WriteZpIdx => if k == 2 {
                zp_fetched(c, v)
            } else if k == 3 {
                Core { address: wadd16(c.address, index_of(c) as u16) & 0xff, ..c }
            } else {
                Core { finished: true, ..c }
            },
            Group::ReadIndX => if k == 2 {
                low_fetched(c, v)
            } else if k == 3 {
                Core { address: ((c.low_byte as u16 + c.x as u16) as u16) & 0xff, ..c }
            } else if k == 4 {
                Core { low_byte: v, ..c }
            } else if k == 5 {
                Core { address: (v as u16) << 8u16 | c.low_byte as u16, ..c }
            } else {
                read_op(c, v)
            },
            Group::WriteIndX => if k == 2 {
                Core { pointer: v, pc: wadd16(c.pc, 1), ..c }
            } else if k == 3 {
                Core { address: ((c.pointer as u16 + c.x as u16) as u16) & 0xff, ..c }
            } else if k == 4 {
                Core { low_byte: v, ..c }
            } else if k == 5 {
                Core { address: (v as u16) << 8u16 | c.low_byte as u16, ..c }
            } else {
                Core { finished: true, ..c }
            },
            Group::ReadAbsIdx => if k == 2 {
                low_fetched(c, v)
            } else if k == 3 {
                Core { pc: wadd16(c.pc, 1), ..indexed(c, v, index_of(c)) }
            } else if k == 4 {
                Core { value: v, ..c }
            } else if c.page_crossed {
                read_op(Core { address: wadd16(c.address, 0x100), ..c }, v)
            } else {
                read_op(Core { no_increment: true, ..c }, c.value)
            },
            Group::RmwAbsX => if k == 2 {
                low_fetched(c, v)
            } else if k == 3 {
                Core { pc: wadd16(c.pc, 1), low_byte: low_indexed(c, c.x), ..indexed(c, v, c.x) }
            } else if k == 4 {
                Core {
                    value: v,
                    address: if c.page_crossed {
                        wadd16(c.address, 0x100)
                    } else {
                        c.address
                    },
                    ..c
                }
            } else if k == 5 {
                Core { value: v, ..c }
            } else if k == 6 {
                c
            } else {
                rmw_done(c)
            },
            Group::WriteAbsIdx => if k == 2 {
                low_fetched(c, v)
            } else if k == 3 {
                Core {
                    pc: wadd16(c.pc, 1),
                    low_byte: low_indexed(c, index_of(c)),
                    ..indexed(c, v, index_of(c))
                }
            } else if k == 4 {
                Core {
                    value: v,
                    address: if c.page_crossed {
                        wadd16(c.address, 0x100)
                    } else {
                        c.address
                    },
                    ..c
                }
            } else {
                Core { finished: true, ..c }
            },
            Group::ReadIndY => if k == 2 {
                Core { pointer: v, pc: wadd16(c.pc, 1), ..c }
            } else if k == 3 {
                Core { low_byte: v, ..c }
            } else if k == 4 {
                Core { low_byte: low_indexed(c, c.y), ..indexed(c, v, c.y) }
            } else if k == 5 {
                Core { value: v, ..c }
            } else if c.page_crossed {
                read_op(Core { value: v, ..c }, v)
            } else {
                read_op(Core { no_increment: true, ..c }, c.value)
            },
            Group::WriteIndY => if k == 2 {
                Core { pointer: v, pc: wadd16(c.pc, 1), ..c }
            } else if k == 3 {
                Core { low_byte: v, ..c }
            } else if k == 4 {
                Core { low_byte: low_indexed(c, c.y), ..indexed(c, v, c.y) }
            } else if k == 5 {
                Core { value: v, ..c }
            } else {
                Core {
                    address: if c.page_crossed {
                        wadd16(c.address, 0x100)
                    } else {
                        c.address
                    },
                    finished: true,
                    ..c
                }
            },
            Group::Branch => if k == 2 {
                low_fetched(c, v)
            } else if k == 3 {
                if branch_taken(c) {
                    let new = if c.low_byte < 0x80 {
                        wadd16(c.pc, c.low_byte as u16)
                    } else {
                        wsub16(c.pc, (256 - c.low_byte) as u16)
                    };
                    Core {
                        page_crossed: ((c.pc ^ new) & 0xff00) > 0,
                        address: new,
                        pc: (c.pc & 0xff00) | ((((c.pc & 0xff) + c.low_byte as u16) as u16) & 0xff),
                        pc_changed: true,
                        ..c
                    }
                } else {
                    Core { page_crossed: false, no_increment: true, ..c }
                }
            } else if c.page_crossed {
                Core { pc: c.address, finished: true, ..c }
            } else {
                Core { no_increment: true, finished: true, ..c }
            },
            Group::Unknown => c,
        }
    }
}

/// Every family takes between 2 and 7 cycles.
pub proof fn lemma_last_cycle(g: Group)
    requires
        g != Group::Unknown,
    ensures
        2 <= last_cycle(g) <= 7,
{
}

/// The work of a cycle keeps the opcode and the cycle number, and the last
/// cycle of an instruction completes it.
#[verifier::rlimit(60)]
pub proof fn lemma_effect_progress(c: Core, v: u8)
    requires
        group_of(c.opcode) != Group::Unknown,
        c.cycle <= last_cycle(group_of(c.opcode)),
    ensures
        cycle_effect(c, v).opcode == c.opcode,
        cycle_effect(c, v).cycle == c.cycle,
        cycle_effect(c, v).pending == c.pending,
        cycle_effect(c, v).interrupting == c.interrupting,
        c.cycle == last_cycle(group_of(c.opcode)) ==> cycle_effect(c, v).finished,
        c.cycle < 2 ==> cycle_effect(c, v) == c,
        c.cycle < 2 ==> cycle_access(c) == Access::Idle,
{
    reveal(cycle_effect);
    reveal(cycle_access);
}

/// The work of any cycle keeps the opcode, the pending interrupt and the interrupt state.
#[verifier::rlimit(100)]
#[verifier::spinoff_prover]
pub proof fn lemma_effect_keeps(c: Core, v: u8)
    ensures
        cycle_effect(c, v).opcode == c.opcode,
        cycle_effect(c, v).pending == c.pending,
        cycle_effect(c, v).interrupting == c.interrupting,
{
    reveal(cycle_effect);
}

/// A cycle that stops counting without completing the instruction is the
/// third cycle of a branch not taken; a branch's fourth cycle completes it.
#[verifier::rlimit(40)]
pub proof fn lemma_effect_counting(c: Core, v: u8)
    requires
        group_of(c.opcode) != Group::Unknown,
        2 <= c.cycle <= last_cycle(group_of(c.opcode)),
    ensures
        cycle_effect(c, v).no_increment && !cycle_effect(c, v).finished && !c.no_increment
            ==> group_of(c.opcode) == Group::Branch && c.cycle == 3
            && !cycle_effect(c, v).page_crossed,
        c.no_increment && c.cycle == 4 && group_of(c.opcode) == Group::Branch
            ==> cycle_effect(c, v).finished,
{
    reveal(cycle_effect);
    lemma_read_op_keeps_increment(Core { value: v, pc: wadd16(c.pc, 1), ..c }, v);
    lemma_read_op_keeps_increment(c, v);
    lemma_read_op_keeps_increment(Core { address: wadd16(c.address, 0x100), ..c }, v);
    lemma_read_op_keeps_increment(Core { no_increment: true, ..c }, c.value);
    lemma_read_op_keeps_increment(Core { value: v, ..c }, v);
}

/// Every cycle of an instruction that counts reads or writes memory, and a
/// cycle that does not count touches nothing: only a branch not taken, or
/// taken within its page, and an indexed read within its page, have cycles
/// that do not count. (The first cycle of an instruction counts and reads
/// its opcode.)
pub proof fn lemma_counted_cycles_access_memory(c: Core, v: u8)
    requires
        group_of(c.opcode) != Group::Unknown,
        2 <= c.cycle <= last_cycle(group_of(c.opcode)),
        c.no_increment ==> group_of(c.opcode) == Group::Branch && c.cycle == 4 && !c.page_crossed,
    ensures
        cycle_effect(c, v).no_increment <==> cycle_access(c) == Access::Idle,
{
    reveal(cycle_effect);
    reveal(cycle_access);
    if group_of(c.opcode) == Group::ReadImm || group_of(c.opcode) == Group::ReadAbs || group_of(
        c.opcode,
    ) == Group::ReadZp || group_of(c.opcode) == Group::ReadZpIdx || group_of(c.opcode)
        == Group::ReadIndX || group_of(c.opcode) == Group::ReadAbsIdx || group_of(c.opcode)
        == Group::ReadIndY {
        lemma_read_op_keeps_increment(Core { value: v, pc: wadd16(c.pc, 1), ..c }, v);
        lemma_read_op_keeps_increment(c, v);
        lemma_read_op_keeps_increment(Core { address: wadd16(c.address, 0x100), ..c }, v);
        lemma_read_op_keeps_increment(Core { no_increment: true, ..c }, c.value);
        lemma_read_op_keeps_increment(Core { value: v, ..c }, v);
    }
}

/// A read instruction's last step leaves the counting flag alone and
/// completes the instruction.
proof fn lemma_read_op_keeps_increment(c: Core, v: u8)
    ensures
        read_op(c, v).no_increment == c.no_increment,
        read_op(c, v).finished,
{
}

/// CMP sets N, Z and C as SBC with the carry set would in binary mode,
/// without touching A or V.
pub proof fn lemma_compare_is_subtraction(a: u8, v: u8, p: u8)
    requires
        p & FLAG_C != 0,
        p & FLAG_D == 0,
    ensures
        sbc(a, v, p).0 == wsub8(a, v),
        sbc(a, v, p).1 & !FLAG_V == compare(p, a, v) & !FLAG_V,
{
    let w = v ^ 0xff;
    assert(w == 255 - v) by (bit_vector)
        requires
            w == v ^ 0xff,
    ;
    let result: u16 = (a as u16 + w as u16 + 1) as u16;
    assert(result == a + 256 - v);
    let r = result as u8;
    assert((result & 0x100 != 0) == (result >= 256) && (result >= 256 ==> r == result - 256) && (
    result < 256 ==> r == result)) by (bit_vector)
        requires
            result < 512,
            r == result as u8,
    ;
    let carry6: u8 = ((a & 0x7f) + (w & 0x7f) + 1u16) as u8;
    let ge = a >= v;
    let over = ge != (carry6 & 0x80 != 0);
    assert(sbc(a, v, p) == adc(a, w, p));
    lemma_adc_bits(a, w, p);
    assert((result & 0x100 != 0) == ge);
    assert(r == wsub8(a, v));
    lemma_flag_read_back(p, FLAG_C, ge);
    assert(adc_bits(a, w, p).0 == r);
    assert(adc_bits(a, w, p).1 == with_nz(with_flag(with_flag(p, FLAG_C, ge), FLAG_V, over), r));
    assert(((with_nz(with_flag(with_flag(p, FLAG_C, ge), FLAG_V, over), r)) & !FLAG_V) == ((with_nz(
        with_flag(p, FLAG_C, ge),
        r,
    )) & !FLAG_V)) by (bit_vector);
}

/// A flag set or cleared reads back as set or cleared, and the other bits
/// keep their values.
pub proof fn lemma_flag_read_back(p: u8, mask: u8, on: bool)
    requires
        mask == FLAG_C || mask == FLAG_Z || mask == FLAG_I || mask == FLAG_D || mask == FLAG_B
            || mask == FLAG_V || mask == FLAG_N,
    ensures
        (with_flag(p, mask, on) & mask != 0) == on,
        with_flag(p, mask, on) & !mask == p & !mask,
{
    assert((with_flag(p, mask, on) & mask != 0) == on && with_flag(p, mask, on) & !mask == p & !mask)
        by (bit_vector)
        requires
            mask == 0x01u8 || mask == 0x02u8 || mask == 0x04u8 || mask == 0x08u8 || mask == 0x10u8
                || mask == 0x40u8 || mask == 0x80u8,
    ;
}

/// The flags after a shift or rotation sets C to `on` and N and Z from `r`: C, Z and N
/// read back, and V, D, I, B and bit 5 are kept.
proof fn lemma_shift_flags(p: u8, on: bool, r: u8)
    ensures
        ({
            let f = with_nz(with_flag(p, FLAG_C, on), r);
            &&& (f & 1 != 0) == on
            &&& (f & 2 != 0) == (r == 0)
            &&& (f & 0x80 != 0) == (r >= 128)
            &&& f & 0x7c == p & 0x7c
        }),
{
    let p1 = if on { p | 1 } else { p & !1u8 };
    let p2 = if r == 0 { p1 | 2 } else { p1 & !2u8 };
    let f = if r & 0x80 != 0 { p2 | 0x80 } else { p2 & !0x80u8 };
    assert(f == with_nz(with_flag(p, FLAG_C, on), r));
    assert((f & 1 != 0) == on && (f & 2 != 0) == (r == 0) && (f & 0x80 != 0) == (r >= 128)
        && f & 0x7c == p & 0x7c) by (bit_vector)
        requires
            p1 == (if on { p | 1 } else { p & !1u8 }),
            p2 == (if r == 0 { p1 | 2 } else { p1 & !2u8 }),
            f == (if r & 0x80 != 0 { p2 | 0x80 } else { p2 & !0x80u8 });
}

/// The flags after INC or DEC: Z and N from `r`, every other flag kept.
proof fn lemma_count_flags(p: u8, r: u8)
    ensures
        ({
            let f = with_nz(p, r);
            &&& (f & 2 != 0) == (r == 0)
            &&& (f & 0x80 != 0) == (r >= 128)
            &&& f & 1 == p & 1
            &&& f & 0x7c == p & 0x7c
        }),
{
    let p2 = if r == 0 { p | 2 } else { p & !2u8 };
    let f = if r & 0x80 != 0 { p2 | 0x80 } else { p2 & !0x80u8 };
    assert(f == with_nz(p, r));
    assert((f & 2 != 0) == (r == 0) && (f & 0x80 != 0) == (r >= 128) && f & 1 == p & 1
        && f & 0x7c == p & 0x7c) by (bit_vector)
        requires
            p2 == (if r == 0 { p | 2 } else { p & !2u8 }),
            f == (if r & 0x80 != 0 { p2 | 0x80 } else { p2 & !0x80u8 });
}

/// Law: what a read-modify-write does to its byte `v` with the flags `p` (carry `c`):
/// ASL doubles it, bit 7 going to C; LSR halves it, bit 0 going to C; ROL doubles it and
/// adds the old carry, bit 7 going to C; ROR halves it and adds the old carry as bit 7,
/// bit 0 going to C; INC and DEC add and take one modulo 256 and keep C. Then Z tells
/// whether the result is 0 and N whether it is 128 or more, and V, D, I, B and bit 5 stay.
pub proof fn lemma_rmw_arithmetic(kind: RmwKind, v: u8, p: u8)
    ensures
        ({
            let r = rmw(kind, v, p).0;
            let f = with_nz(rmw(kind, v, p).1, r);
            let c: int = if p & 1 != 0 { 1 } else { 0 };
            &&& kind == RmwKind::Asl ==> r == (2 * v) % 256 && (f & 1 != 0) == (v >= 128)
            &&& kind == RmwKind::Lsr ==> r == v / 2 && (f & 1 != 0) == (v % 2 == 1)
            &&& kind == RmwKind::Rol ==> r == (2 * v + c) % 256 && (f & 1 != 0) == (v >= 128)
            &&& kind == RmwKind::Ror ==> r == v / 2 + 128 * c && (f & 1 != 0) == (v % 2 == 1)
            &&& kind == RmwKind::Inc ==> r == (v + 1) % 256 && f & 1 == p & 1
            &&& kind == RmwKind::Dec ==> r == (v + 255) % 256 && f & 1 == p & 1
            &&& (f & 2 != 0) == (r == 0)
            &&& (f & 0x80 != 0) == (r >= 128)
            &&& f & 0x7c == p & 0x7c
        }),
{
    let r = rmw(kind, v, p).0;
    let c: u8 = if p & 1 != 0 { 1 } else { 0 };
    assert(carry_bit(p) == c);
    crate::bit_facts::lemma_u8_fields();
    assert(v & 0x80 == 128 * (v / 128) && v & 1 == v % 2);
    match kind {
        RmwKind::Asl => {
            assert((v << 1u8) + 256 * (v / 128) == 2 * v);
            lemma_shift_flags(p, v & 0x80 != 0, r);
        },
        RmwKind::Lsr => {
            assert((v >> 1u8) == v / 2);
            lemma_shift_flags(p, v & 1 != 0, r);
        },
        RmwKind::Rol => {
            assert(((v << 1u8) | c) + 256 * (v / 128) == 2 * v + c);
            lemma_shift_flags(p, v & 0x80 != 0, r);
        },
        RmwKind::Ror => {
            assert(((v >> 1u8) | (c << 7u8)) == v / 2 + 128 * c);
            lemma_shift_flags(p, v & 1 != 0, r);
        },
        RmwKind::Inc => {
            lemma_count_flags(p, r);
        },
        RmwKind::Dec => {
            lemma_count_flags(p, r);
        },
    }
}

/// Law: the eight conditional branches are taken on one flag each: BPL ($10) and BMI ($30)
/// on N clear and set, BVC ($50) and BVS ($70) on V, BCC ($90) and BCS ($B0) on C, BNE
/// ($D0) and BEQ ($F0) on Z.
pub proof fn lemma_branch_conditions(c: Core)
    ensures
        c.opcode == 0x10 ==> branch_taken(c) == (c.p < 128),
        c.opcode == 0x30 ==> branch_taken(c) == (c.p >= 128),
        c.opcode == 0x50 ==> branch_taken(c) == ((c.p / 64) % 2 == 0),
        c.opcode == 0x70 ==> branch_taken(c) == ((c.p / 64) % 2 == 1),
        c.opcode == 0x90 ==> branch_taken(c) == (c.p % 2 == 0),
        c.opcode == 0xb0 ==> branch_taken(c) == (c.p % 2 == 1),
        c.opcode == 0xd0 ==> branch_taken(c) == ((c.p / 2) % 2 == 0),
        c.opcode == 0xf0 ==> branch_taken(c) == ((c.p / 2) % 2 == 1),
{
    let p: u8 = c.p;
    assert((p & 0x80 != 0) == (p >= 128) && (p & 0x40 != 0) == ((p / 64) % 2 == 1)
        && (p & 1 != 0) == (p % 2 == 1) && (p & 2 != 0) == ((p / 2) % 2 == 1)) by (bit_vector);
}

/// Law: the flag instructions after their first two cycles: CLC ($18) and SEC ($38) clear
/// and set bit 0 (C), CLI ($58) and SEI ($78) bit 2 (I), CLV ($B8) clears bit 6 (V), CLD
/// ($D8) and SED ($F8) clear and set bit 3 (D); every other bit of P stays.
pub proof fn lemma_flag_instructions(c: Core, v: u8)
    requires
        c.cycle >= 2,
    ensures
        ({
            let p = c.p as int;
            let r = cycle_effect(c, v).p as int;
            &&& c.opcode == 0x18 ==> r == p - p % 2
            &&& c.opcode == 0x38 ==> r == p - p % 2 + 1
            &&& c.opcode == 0x58 ==> r == p - 4 * ((p / 4) % 2)
            &&& c.opcode == 0x78 ==> r == p - 4 * ((p / 4) % 2) + 4
            &&& c.opcode == 0xb8 ==> r == p - 64 * ((p / 64) % 2)
            &&& c.opcode == 0xd8 ==> r == p - 8 * ((p / 8) % 2)
            &&& c.opcode == 0xf8 ==> r == p - 8 * ((p / 8) % 2) + 8
        }),
{
    reveal(cycle_effect);
    let p: u8 = c.p;
    assert((p & !1u8) == p - p % 2 && (p | 1) == p - p % 2 + 1
        && (p & !4u8) == p - 4 * ((p / 4) % 2) && (p | 4) == p - 4 * ((p / 4) % 2) + 4
        && (p & !0x40u8) == p - 64 * ((p / 64) % 2)
        && (p & !8u8) == p - 8 * ((p / 8) % 2) && (p | 8) == p - 8 * ((p / 8) % 2) + 8) by (bit_vector);
    if c.opcode == 0x18 || c.opcode == 0x38 || c.opcode == 0x58 || c.opcode == 0x78
        || c.opcode == 0xb8 || c.opcode == 0xd8 || c.opcode == 0xf8 {
        assert(group_of(c.opcode) == Group::Flag);
    }
}

/// Law: BIT ($24 zero page, $2C absolute) sets Z when A and the byte it read have no bit
/// in common, copies bit 7 of the byte to N and bit 6 to V, keeps C, I, D, B and bit 5, and
/// leaves A as it was.
pub proof fn lemma_bit_test(c: Core, v: u8)
    requires
        c.opcode == 0x24 || c.opcode == 0x2c,
    ensures
        ({
            let q = read_op(c, v);
            &&& ((q.p / 2) % 2 == 1) == (c.a & v == 0)
            &&& (q.p >= 128) == (v >= 128)
            &&& (q.p / 64) % 2 == (v / 64) % 2
            &&& q.p & 0x3d == c.p & 0x3d
            &&& q.a == c.a
        }),
{
    assert(read_kind_of(c.opcode) == ReadKind::Bit);
    let p: u8 = c.p;
    let a: u8 = c.a;
    let q: u8 = bit_flags(p, a, v);
    assert(((q / 2) % 2 == 1) == (a & v == 0) && (q >= 128) == (v >= 128) && (q / 64) % 2 == (v / 64) % 2
        && q & 0x3d == p & 0x3d) by (bit_vector)
        requires
            q == with_flag(with_flag(with_flag(p, 0x02u8, v & a == 0), 0x80u8, v & 0x80 != 0), 0x40u8,
                v & 0x40 != 0);
}


/// Law: absolute indexed addressing with base `high`:`low` and index `i` crosses a page
/// exactly when `low + i` passes 255, and the address it reads first keeps the high byte of
/// the base with the low byte `(low + i) % 256` (the one that is fixed up on a crossing).
pub proof fn lemma_indexed_address(c: Core, high: u8, index: u8)
    ensures
        ({
            let r = indexed(c, high, index);
            let low = c.low_byte as int;
            &&& r.page_crossed == (low + index >= 256)
            &&& r.address == 256 * high + (low + index) % 256
        }),
{
    let low: u8 = c.low_byte;
    let old: u16 = (high as u16) << 8u16 | low as u16;
    let new: u16 = wadd16(old, index as u16);
    assert(old == 256 * high + low && ((((old ^ new) & 0xff00) > 0) == (old / 256 != new / 256)))
        by (bit_vector)
        requires
            old == ((high as u16) << 8u16) | (low as u16);
}


/// Law: the stack lives in page one. On its third cycle PHA ($48) writes A and PHP ($08)
/// writes P with bit 4 (B) set at $0100 + S, and S goes down by one (modulo 256); on its
/// fourth cycle PLA ($68) and PLP ($28) read $0100 + S + 1, S goes up by one, and PLA
/// loads A (with N and Z from it) and PLP loads P with the byte read.
pub proof fn lemma_stack_ops(c: Core, v: u8)
    ensures
        ({
            let e = cycle_effect(c, v);
            let pushed_p = (if (c.p / 16) % 2 == 1 { c.p as int } else { c.p + 16 }) as u8;
            &&& c.opcode == 0x48 && c.cycle == 3 ==> cycle_access(c) == Access::Write((256 + c.s) as u16, c.a)
                && e.s == (c.s + 255) % 256
            &&& c.opcode == 0x08 && c.cycle == 3 ==> cycle_access(c) == Access::Write((256 + c.s) as u16, pushed_p)
                && e.s == (c.s + 255) % 256
            &&& (c.opcode == 0x68 || c.opcode == 0x28) && c.cycle == 4
                ==> cycle_access(c) == Access::Read((256 + (c.s + 1) % 256) as u16) && e.s == (c.s + 1) % 256
            &&& c.opcode == 0x68 && c.cycle == 4 ==> e.a == v && e.p == with_nz(c.p, v)
            &&& c.opcode == 0x28 && c.cycle == 4 ==> e.p == v
        }),
{
    let p: u8 = c.p;
    assert((p | 0x10) + 16 * ((p / 16) % 2) == p + 16) by {
        crate::bit_facts::lemma_u8_fields();
    }
    if (c.opcode == 0x48 || c.opcode == 0x08) && c.cycle == 3 {
        assert(group_of(c.opcode) == Group::Push);
        assert(c.opcode == 0x48 ==> cycle_access(c) == Access::Write(stack_at(c.s), c.a)) by {
            reveal(cycle_access);
        }
        assert(c.opcode == 0x08 ==> cycle_access(c) == Access::Write(stack_at(c.s), with_flag(p, FLAG_B, true))) by {
            reveal(cycle_access);
        }
        assert(cycle_effect(c, v).s == wsub8(c.s, 1)) by {
            reveal(cycle_effect);
        }
    }
    if (c.opcode == 0x68 || c.opcode == 0x28) && c.cycle == 4 {
        assert(group_of(c.opcode) == Group::Pull);
        assert(cycle_access(c) == popped(c)) by {
            reveal(cycle_access);
        }
        assert(c.opcode == 0x68 ==> cycle_effect(c, v) == Core { s: wadd8(c.s, 1), a: v, p: with_nz(c.p, v),
            finished: true, ..c }) by {
            reveal(cycle_effect);
        }
        assert(c.opcode == 0x28 ==> cycle_effect(c, v) == Core { s: wadd8(c.s, 1), p: v, finished: true, ..c }) by {
            reveal(cycle_effect);
        }
    }
}


} // verus!
