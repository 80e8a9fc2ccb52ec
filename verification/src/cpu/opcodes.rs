//! The opcodes of the documented 6502 instructions.
use vstd::prelude::*;

verus! {

pub const BRK: u8 = 0x00;
pub const ORA_IND_X: u8 = 0x01;
pub const ORA_ZP: u8 = 0x05;
pub const ASL_ZP: u8 = 0x06;
pub const PHP: u8 = 0x08;
pub const ORA_IMM: u8 = 0x09;
pub const ASL: u8 = 0x0A;
pub const ORA_ABS: u8 = 0x0D;
pub const ASL_ABS: u8 = 0x0E;
pub const BPL: u8 = 0x10;
pub const ORA_IND_Y: u8 = 0x11;
pub const ORA_ZP_X: u8 = 0x15;
pub const ASL_ZP_X: u8 = 0x16;
pub const CLC: u8 = 0x18;
pub const ORA_ABS_Y: u8 = 0x19;
pub const ORA_ABS_X: u8 = 0x1D;
pub const ASL_ABS_X: u8 = 0x1E;
pub const JSR: u8 = 0x20;
pub const AND_IND_X: u8 = 0x21;
pub const BIT_ZP: u8 = 0x24;
pub const AND_ZP: u8 = 0x25;
pub const ROL_ZP: u8 = 0x26;
pub const PLP: u8 = 0x28;
pub const AND_IMM: u8 = 0x29;
pub const ROL: u8 = 0x2A;
pub const BIT_ABS: u8 = 0x2C;
pub const AND_ABS: u8 = 0x2D;
pub const ROL_ABS: u8 = 0x2E;
pub const BMI: u8 = 0x30;
pub const AND_IND_Y: u8 = 0x31;
pub const AND_ZP_X: u8 = 0x35;
pub const ROL_ZP_X: u8 = 0x36;
pub const SEC: u8 = 0x38;
pub const AND_ABS_Y: u8 = 0x39;
pub const AND_ABS_X: u8 = 0x3D;
pub const ROL_ABS_X: u8 = 0x3E;
pub const RTI: u8 = 0x40;
pub const EOR_IND_X: u8 = 0x41;
pub const EOR_ZP: u8 = 0x45;
pub const LSR_ZP: u8 = 0x46;
pub const PHA: u8 = 0x48;
pub const EOR_IMM: u8 = 0x49;
pub const LSR: u8 = 0x4A;
pub const JMP: u8 = 0x4C;
pub const EOR_ABS: u8 = 0x4D;
pub const LSR_ABS: u8 = 0x4E;
pub const BVC: u8 = 0x50;
pub const EOR_IND_Y: u8 = 0x51;
pub const EOR_ZP_X: u8 = 0x55;
pub const LSR_ZP_X: u8 = 0x56;
pub const CLI: u8 = 0x58;
pub const EOR_ABS_Y: u8 = 0x59;
pub const EOR_ABS_X: u8 = 0x5D;
pub const LSR_ABS_X: u8 = 0x5E;
pub const RTS: u8 = 0x60;
pub const ADC_IND_X: u8 = 0x61;
pub const ADC_ZP: u8 = 0x65;
pub const ROR_ZP: u8 = 0x66;
pub const PLA: u8 = 0x68;
pub const ADC_IMM: u8 = 0x69;
pub const ROR: u8 = 0x6A;
pub const JMP_IND: u8 = 0x6C;
pub const ADC_ABS: u8 = 0x6D;
pub const ROR_ABS: u8 = 0x6E;
pub const BVS: u8 = 0x70;
pub const ADC_IND_Y: u8 = 0x71;
pub const ADC_ZP_X: u8 = 0x75;
pub const ROR_ZP_X: u8 = 0x76;
pub const SEI: u8 = 0x78;
pub const ADC_ABS_Y: u8 = 0x79;
pub const ADC_ABS_X: u8 = 0x7D;
pub const ROR_ABS_X: u8 = 0x7E;
pub const STA_IND_X: u8 = 0x81;
pub const STY_ZP: u8 = 0x84;
pub const STA_ZP: u8 = 0x85;
pub const STX_ZP: u8 = 0x86;
pub const DEY: u8 = 0x88;
pub const TXA: u8 = 0x8A;
pub const STY_ABS: u8 = 0x8C;
pub const STA_ABS: u8 = 0x8D;
pub const STX_ABS: u8 = 0x8E;
pub const BCC: u8 = 0x90;
pub const STA_IND_Y: u8 = 0x91;
pub const STY_ZP_X: u8 = 0x94;
pub const STA_ZP_X: u8 = 0x95;
pub const STX_ZP_Y: u8 = 0x96;
pub const TYA: u8 = 0x98;
pub const STA_ABS_Y: u8 = 0x99;
pub const TXS: u8 = 0x9A;
pub const STA_ABS_X: u8 = 0x9D;
pub const LDY_IMM: u8 = 0xA0;
pub const LDA_IND_X: u8 = 0xA1;
pub const LDX_IMM: u8 = 0xA2;
pub const LDY_ZP: u8 = 0xA4;
pub const LDA_ZP: u8 = 0xA5;
pub const LDX_ZP: u8 = 0xA6;
pub const TAY: u8 = 0xA8;
pub const LDA_IMM: u8 = 0xA9;
pub const TAX: u8 = 0xAA;
pub const LDY_ABS: u8 = 0xAC;
pub const LDA_ABS: u8 = 0xAD;
pub const LDX_ABS: u8 = 0xAE;
pub const BCS: u8 = 0xB0;
pub const LDA_IND_Y: u8 = 0xB1;
pub const LDY_ZP_X: u8 = 0xB4;
pub const LDA_ZP_X: u8 = 0xB5;
pub const LDX_ZP_Y: u8 = 0xB6;
pub const CLV: u8 = 0xB8;
pub const LDA_ABS_Y: u8 = 0xB9;
pub const TSX: u8 = 0xBA;
pub const LDY_ABS_X: u8 = 0xBC;
pub const LDA_ABS_X: u8 = 0xBD;
pub const LDX_ABS_Y: u8 = 0xBE;
pub const CPY_IMM: u8 = 0xC0;
pub const CMP_IND_X: u8 = 0xC1;
pub const CPY_ZP: u8 = 0xC4;
pub const CMP_ZP: u8 = 0xC5;
pub const DEC_ZP: u8 = 0xC6;
pub const INY: u8 = 0xC8;
pub const CMP_IMM: u8 = 0xC9;
pub const DEX: u8 = 0xCA;
pub const CPY_ABS: u8 = 0xCC;
pub const CMP_ABS: u8 = 0xCD;
pub const DEC_ABS: u8 = 0xCE;
pub const BNE: u8 = 0xD0;
pub const CMP_IND_Y: u8 = 0xD1;
pub const CMP_ZP_X: u8 = 0xD5;
pub const DEC_ZP_X: u8 = 0xD6;
pub const CLD: u8 = 0xD8;
pub const CMP_ABS_Y: u8 = 0xD9;
pub const CMP_ABS_X: u8 = 0xDD;
pub const DEC_ABS_X: u8 = 0xDE;
pub const CPX_IMM: u8 = 0xE0;
pub const SBC_IND_X: u8 = 0xE1;
pub const CPX_ZP: u8 = 0xE4;
pub const SBC_ZP: u8 = 0xE5;
pub const INC_ZP: u8 = 0xE6;
pub const INX: u8 = 0xE8;
pub const SBC_IMM: u8 = 0xE9;
pub const NOP: u8 = 0xEA;
pub const CPX_ABS: u8 = 0xEC;
pub const SBC_ABS: u8 = 0xED;
pub const INC_ABS: u8 = 0xEE;
pub const BEQ: u8 = 0xF0;
pub const SBC_IND_Y: u8 = 0xF1;
pub const SBC_ZP_X: u8 = 0xF5;
pub const INC_ZP_X: u8 = 0xF6;
pub const SED: u8 = 0xF8;
pub const SBC_ABS_Y: u8 = 0xF9;
pub const SBC_ABS_X: u8 = 0xFD;
pub const INC_ABS_X: u8 = 0xFE;

/// The families of instructions that share an addressing mode and a cycle pattern.
#[derive(Clone, Copy, PartialEq, Eq, Structural, Debug)]
pub enum Group {
    /// 1-byte instructions that set or clear one status flag.
    Flag,
    /// No operation.
    Nop,
    /// Software interrupt.
    Brk,
    /// Return from interrupt.
    Rti,
    /// Return from subroutine.
    Rts,
    /// Push a register.
    Push,
    /// Pull a register.
    Pull,
    /// Indirect jump.
    JmpInd,
    /// Absolute jump.
    Jmp,
    /// Jump to subroutine.
    Jsr,
    /// Register transfers, increments and decrements.
    Transfer,
    /// Shifts and rotations of the accumulator.
    ShiftA,
    /// Index register compared with an immediate byte.
    CompareImm,
    /// Reads of an immediate byte.
    ReadImm,
    /// Reads, absolute.
    ReadAbs,
    /// Read-modify-write, absolute.
    RmwAbs,
    /// Stores, absolute.
    WriteAbs,
    /// Reads, zero page.
    ReadZp,
    /// Read-modify-write, zero page.
    RmwZp,
    /// Stores, zero page.
    WriteZp,
    /// Reads, zero page indexed.
    ReadZpIdx,
    /// Read-modify-write, zero page indexed by X.
    RmwZpX,
    /// Stores, zero page indexed.
    WriteZpIdx,
    /// Reads, indexed indirect (X).
    ReadIndX,
    /// Store, indexed indirect (X).
    WriteIndX,
    /// Reads, absolute indexed.
    ReadAbsIdx,
    /// Read-modify-write, absolute indexed by X.
    RmwAbsX,
    /// Stores, absolute indexed.
    WriteAbsIdx,
    /// Reads, indirect indexed (Y).
    ReadIndY,
    /// Store, indirect indexed (Y).
    WriteIndY,
    /// Conditional branches.
    Branch,
    /// Not a documented instruction.
    Unknown,
}

/// The family of opcode `op`.
pub open spec fn group_of(op: u8) -> Group {
    if op == CLD || op == CLC || op == CLV || op == CLI || op == SED || op == SEC || op == SEI {
        Group::Flag
    } else if op == NOP {
        Group::Nop
    } else if op == BRK {
        Group::Brk
    } else if op == RTI {
        Group::Rti
    } else if op == RTS {
        Group::Rts
    } else if op == PHA || op == PHP {
        Group::Push
    } else if op == PLA || op == PLP {
        Group::Pull
    } else if op == JMP_IND {
        Group::JmpInd
    } else if op == JMP {
        Group::Jmp
    } else if op == JSR {
        Group::Jsr
    } else if op == TXS || op == TSX || op == DEX || op == DEY || op == INX || op == INY || op == TXA || op == TAX || op == TYA || op == TAY {
        Group::Transfer
    } else if op == LSR || op == ROL || op == ROR || op == ASL {
        Group::ShiftA
    } else if op == CPY_IMM || op == CPX_IMM {
        Group::CompareImm
    } else if op == LDA_IMM || op == LDX_IMM || op == LDY_IMM || op == EOR_IMM || op == AND_IMM || op == ORA_IMM || op == ADC_IMM || op == SBC_IMM || op == CMP_IMM {
        Group::ReadImm
    } else if op == LDA_ABS || op == LDX_ABS || op == LDY_ABS || op == EOR_ABS || op == AND_ABS || op == ORA_ABS || op == ADC_ABS || op == SBC_ABS || op == CMP_ABS || op == CPX_ABS || op == CPY_ABS || op == BIT_ABS {
        Group::ReadAbs
    } else if op == ASL_ABS || op == LSR_ABS || op == ROL_ABS || op == ROR_ABS || op == INC_ABS || op == DEC_ABS {
        Group::RmwAbs
    } else if op == STA_ABS || op == STX_ABS || op == STY_ABS {
        Group::WriteAbs
    } else if op == LDA_ZP || op == LDX_ZP || op == LDY_ZP || op == EOR_ZP || op == AND_ZP || op == ORA_ZP || op == ADC_ZP || op == SBC_ZP || op == CMP_ZP || op == BIT_ZP || op == CPX_ZP || op == CPY_ZP {
        Group::ReadZp
    } else if op == ASL_ZP || op == LSR_ZP || op == ROL_ZP || op == ROR_ZP || op == INC_ZP || op == DEC_ZP {
        Group::RmwZp
    } else if op == STA_ZP || op == STX_ZP || op == STY_ZP {
        Group::WriteZp
    } else if op == LDA_ZP_X || op == LDY_ZP_X || op == EOR_ZP_X || op == AND_ZP_X || op == ORA_ZP_X || op == ADC_ZP_X || op == SBC_ZP_X || op == CMP_ZP_X || op == LDX_ZP_Y {
        Group::ReadZpIdx
    } else if op == ASL_ZP_X || op == LSR_ZP_X || op == ROL_ZP_X || op == ROR_ZP_X || op == INC_ZP_X || op == DEC_ZP_X {
        Group::RmwZpX
    } else if op == STA_ZP_X || op == STY_ZP_X || op == STX_ZP_Y {
        Group::WriteZpIdx
    } else if op == LDA_IND_X || op == ORA_IND_X || op == EOR_IND_X || op == AND_IND_X || op == ADC_IND_X || op == CMP_IND_X || op == SBC_IND_X {
        Group::ReadIndX
    } else if op == STA_IND_X {
        Group::WriteIndX
    } else if op == LDA_ABS_X || op == LDY_ABS_X || op == EOR_ABS_X || op == AND_ABS_X || op == ORA_ABS_X || op == ADC_ABS_X || op == SBC_ABS_X || op == CMP_ABS_X || op == LDA_ABS_Y || op == LDX_ABS_Y || op == EOR_ABS_Y || op == AND_ABS_Y || op == ORA_ABS_Y || op == ADC_ABS_Y || op == SBC_ABS_Y || op == CMP_ABS_Y {
        Group::ReadAbsIdx
    } else if op == ASL_ABS_X || op == LSR_ABS_X || op == ROL_ABS_X || op == ROR_ABS_X || op == INC_ABS_X || op == DEC_ABS_X {
        Group::RmwAbsX
    } else if op == STA_ABS_X || op == STA_ABS_Y {
        Group::WriteAbsIdx
    } else if op == LDA_IND_Y || op == EOR_IND_Y || op == AND_IND_Y || op == ORA_IND_Y || op == ADC_IND_Y || op == SBC_IND_Y || op == CMP_IND_Y {
        Group::ReadIndY
    } else if op == STA_IND_Y {
        Group::WriteIndY
    } else if op == BCC || op == BCS || op == BNE || op == BEQ || op == BPL || op == BMI || op == BVC || op == BVS {
        Group::Branch
    } else {
        Group::Unknown
    }
}

/// The family of opcode `op`.
pub fn group(op: u8) -> (r: Group)
    ensures
        r == group_of(op),
{
    if op == CLD || op == CLC || op == CLV || op == CLI || op == SED || op == SEC || op == SEI {
        Group::Flag
    } else if op == NOP {
        Group::Nop
    } else if op == BRK {
        Group::Brk
    } else if op == RTI {
        Group::Rti
    } else if op == RTS {
        Group::Rts
    } else if op == PHA || op == PHP {
        Group::Push
    } else if op == PLA || op == PLP {
        Group::Pull
    } else if op == JMP_IND {
        Group::JmpInd
    } else if op == JMP {
        Group::Jmp
    } else if op == JSR {
        Group::Jsr
    } else if op == TXS || op == TSX || op == DEX || op == DEY || op == INX || op == INY || op == TXA || op == TAX || op == TYA || op == TAY {
        Group::Transfer
    } else if op == LSR || op == ROL || op == ROR || op == ASL {
        Group::ShiftA
    } else if op == CPY_IMM || op == CPX_IMM {
        Group::CompareImm
    } else if op == LDA_IMM || op == LDX_IMM || op == LDY_IMM || op == EOR_IMM || op == AND_IMM || op == ORA_IMM || op == ADC_IMM || op == SBC_IMM || op == CMP_IMM {
        Group::ReadImm
    } else if op == LDA_ABS || op == LDX_ABS || op == LDY_ABS || op == EOR_ABS || op == AND_ABS || op == ORA_ABS || op == ADC_ABS || op == SBC_ABS || op == CMP_ABS || op == CPX_ABS || op == CPY_ABS || op == BIT_ABS {
        Group::ReadAbs
    } else if op == ASL_ABS || op == LSR_ABS || op == ROL_ABS || op == ROR_ABS || op == INC_ABS || op == DEC_ABS {
        Group::RmwAbs
    } else if op == STA_ABS || op == STX_ABS || op == STY_ABS {
        Group::WriteAbs
    } else if op == LDA_ZP || op == LDX_ZP || op == LDY_ZP || op == EOR_ZP || op == AND_ZP || op == ORA_ZP || op == ADC_ZP || op == SBC_ZP || op == CMP_ZP || op == BIT_ZP || op == CPX_ZP || op == CPY_ZP {
        Group::ReadZp
    } else if op == ASL_ZP || op == LSR_ZP || op == ROL_ZP || op == ROR_ZP || op == INC_ZP || op == DEC_ZP {
        Group::RmwZp
    } else if op == STA_ZP || op == STX_ZP || op == STY_ZP {
        Group::WriteZp
    } else if op == LDA_ZP_X || op == LDY_ZP_X || op == EOR_ZP_X || op == AND_ZP_X || op == ORA_ZP_X || op == ADC_ZP_X || op == SBC_ZP_X || op == CMP_ZP_X || op == LDX_ZP_Y {
        Group::ReadZpIdx
    } else if op == ASL_ZP_X || op == LSR_ZP_X || op == ROL_ZP_X || op == ROR_ZP_X || op == INC_ZP_X || op == DEC_ZP_X {
        Group::RmwZpX
    } else if op == STA_ZP_X || op == STY_ZP_X || op == STX_ZP_Y {
        Group::WriteZpIdx
    } else if op == LDA_IND_X || op == ORA_IND_X || op == EOR_IND_X || op == AND_IND_X || op == ADC_IND_X || op == CMP_IND_X || op == SBC_IND_X {
        Group::ReadIndX
    } else if op == STA_IND_X {
        Group::WriteIndX
    } else if op == LDA_ABS_X || op == LDY_ABS_X || op == EOR_ABS_X || op == AND_ABS_X || op == ORA_ABS_X || op == ADC_ABS_X || op == SBC_ABS_X || op == CMP_ABS_X || op == LDA_ABS_Y || op == LDX_ABS_Y || op == EOR_ABS_Y || op == AND_ABS_Y || op == ORA_ABS_Y || op == ADC_ABS_Y || op == SBC_ABS_Y || op == CMP_ABS_Y {
        Group::ReadAbsIdx
    } else if op == ASL_ABS_X || op == LSR_ABS_X || op == ROL_ABS_X || op == ROR_ABS_X || op == INC_ABS_X || op == DEC_ABS_X {
        Group::RmwAbsX
    } else if op == STA_ABS_X || op == STA_ABS_Y {
        Group::WriteAbsIdx
    } else if op == LDA_IND_Y || op == EOR_IND_Y || op == AND_IND_Y || op == ORA_IND_Y || op == ADC_IND_Y || op == SBC_IND_Y || op == CMP_IND_Y {
        Group::ReadIndY
    } else if op == STA_IND_Y {
        Group::WriteIndY
    } else if op == BCC || op == BCS || op == BNE || op == BEQ || op == BPL || op == BMI || op == BVC || op == BVS {
        Group::Branch
    } else {
        Group::Unknown
    }
}

/// The cycle on which an instruction of family `g` completes.
pub open spec fn last_cycle(g: Group) -> u8 {
    match g {
        Group::Flag => 2,
        Group::Nop => 2,
        Group::Brk => 7,
        Group::Rti => 6,
        Group::Rts => 6,
        Group::Push => 3,
        Group::Pull => 4,
        Group::JmpInd => 5,
        Group::Jmp => 3,
        Group::Jsr => 6,
        Group::Transfer => 2,
        Group::ShiftA => 2,
        Group::CompareImm => 2,
        Group::ReadImm => 2,
        Group::ReadAbs => 4,
        Group::RmwAbs => 6,
        Group::WriteAbs => 4,
        Group::ReadZp => 3,
        Group::RmwZp => 5,
        Group::WriteZp => 3,
        Group::ReadZpIdx => 4,
        Group::RmwZpX => 6,
        Group::WriteZpIdx => 4,
        Group::ReadIndX => 6,
        Group::WriteIndX => 6,
        Group::ReadAbsIdx => 5,
        Group::RmwAbsX => 7,
        Group::WriteAbsIdx => 5,
        Group::ReadIndY => 6,
        Group::WriteIndY => 6,
        Group::Branch => 4,
        Group::Unknown => 1,
    }
}

/// What a read instruction does with the byte it reads.
#[derive(Clone, Copy, PartialEq, Eq, Structural, Debug)]
pub enum ReadKind {
    /// Load A.
    Lda,
    /// Load X.
    Ldx,
    /// Load Y.
    Ldy,
    /// Exclusive or into A.
    Eor,
    /// And into A.
    And,
    /// Or into A.
    Ora,
    /// Add with carry.
    Adc,
    /// Subtract with borrow.
    Sbc,
    /// Compare with A.
    Cmp,
    /// Compare with X.
    Cpx,
    /// Compare with Y.
    Cpy,
    /// Test bits.
    Bit,
}

/// The ReadKind of opcode `op`.
pub open spec fn read_kind_of(op: u8) -> ReadKind {
    if op == LDA_IMM || op == LDA_ABS || op == LDA_ZP || op == LDA_ZP_X || op == LDA_ABS_X || op == LDA_ABS_Y || op == LDA_IND_X || op == LDA_IND_Y {
        ReadKind::Lda
    } else if op == LDX_IMM || op == LDX_ABS || op == LDX_ZP || op == LDX_ZP_Y || op == LDX_ABS_Y {
        ReadKind::Ldx
    } else if op == LDY_IMM || op == LDY_ABS || op == LDY_ZP || op == LDY_ZP_X || op == LDY_ABS_X {
        ReadKind::Ldy
    } else if op == EOR_IMM || op == EOR_ABS || op == EOR_ZP || op == EOR_ZP_X || op == EOR_ABS_X || op == EOR_ABS_Y || op == EOR_IND_X || op == EOR_IND_Y {
        ReadKind::Eor
    } else if op == AND_IMM || op == AND_ABS || op == AND_ZP || op == AND_ZP_X || op == AND_ABS_X || op == AND_ABS_Y || op == AND_IND_X || op == AND_IND_Y {
        ReadKind::And
    } else if op == ORA_IMM || op == ORA_ABS || op == ORA_ZP || op == ORA_ZP_X || op == ORA_ABS_X || op == ORA_ABS_Y || op == ORA_IND_X || op == ORA_IND_Y {
        ReadKind::Ora
    } else if op == ADC_IMM || op == ADC_ABS || op == ADC_ZP || op == ADC_ZP_X || op == ADC_ABS_X || op == ADC_ABS_Y || op == ADC_IND_X || op == ADC_IND_Y {
        ReadKind::Adc
    } else if op == SBC_IMM || op == SBC_ABS || op == SBC_ZP || op == SBC_ZP_X || op == SBC_ABS_X || op == SBC_ABS_Y || op == SBC_IND_X || op == SBC_IND_Y {
        ReadKind::Sbc
    } else if op == CMP_IMM || op == CMP_ABS || op == CMP_ZP || op == CMP_ZP_X || op == CMP_ABS_X || op == CMP_ABS_Y || op == CMP_IND_X || op == CMP_IND_Y {
        ReadKind::Cmp
    } else if op == CPX_ABS || op == CPX_ZP {
        ReadKind::Cpx
    } else if op == CPY_ABS || op == CPY_ZP {
        ReadKind::Cpy
    } else {
        ReadKind::Bit
    }
}

/// The ReadKind of opcode `op`.
pub fn read_kind(op: u8) -> (r: ReadKind)
    ensures
        r == read_kind_of(op),
{
    if op == LDA_IMM || op == LDA_ABS || op == LDA_ZP || op == LDA_ZP_X || op == LDA_ABS_X || op == LDA_ABS_Y || op == LDA_IND_X || op == LDA_IND_Y {
        ReadKind::Lda
    } else if op == LDX_IMM || op == LDX_ABS || op == LDX_ZP || op == LDX_ZP_Y || op == LDX_ABS_Y {
        ReadKind::Ldx
    } else if op == LDY_IMM || op == LDY_ABS || op == LDY_ZP || op == LDY_ZP_X || op == LDY_ABS_X {
        ReadKind::Ldy
    } else if op == EOR_IMM || op == EOR_ABS || op == EOR_ZP || op == EOR_ZP_X || op == EOR_ABS_X || op == EOR_ABS_Y || op == EOR_IND_X || op == EOR_IND_Y {
        ReadKind::Eor
    } else if op == AND_IMM || op == AND_ABS || op == AND_ZP || op == AND_ZP_X || op == AND_ABS_X || op == AND_ABS_Y || op == AND_IND_X || op == AND_IND_Y {
        ReadKind::And
    } else if op == ORA_IMM || op == ORA_ABS || op == ORA_ZP || op == ORA_ZP_X || op == ORA_ABS_X || op == ORA_ABS_Y || op == ORA_IND_X || op == ORA_IND_Y {
        ReadKind::Ora
    } else if op == ADC_IMM || op == ADC_ABS || op == ADC_ZP || op == ADC_ZP_X || op == ADC_ABS_X || op == ADC_ABS_Y || op == ADC_IND_X || op == ADC_IND_Y {
        ReadKind::Adc
    } else if op == SBC_IMM || op == SBC_ABS || op == SBC_ZP || op == SBC_ZP_X || op == SBC_ABS_X || op == SBC_ABS_Y || op == SBC_IND_X || op == SBC_IND_Y {
        ReadKind::Sbc
    } else if op == CMP_IMM || op == CMP_ABS || op == CMP_ZP || op == CMP_ZP_X || op == CMP_ABS_X || op == CMP_ABS_Y || op == CMP_IND_X || op == CMP_IND_Y {
        ReadKind::Cmp
    } else if op == CPX_ABS || op == CPX_ZP {
        ReadKind::Cpx
    } else if op == CPY_ABS || op == CPY_ZP {
        ReadKind::Cpy
    } else {
        ReadKind::Bit
    }
}

/// What a read-modify-write or accumulator instruction does to its byte.
#[derive(Clone, Copy, PartialEq, Eq, Structural, Debug)]
pub enum RmwKind {
    /// Shift left.
    Asl,
    /// Shift right.
    Lsr,
    /// Rotate left through carry.
    Rol,
    /// Rotate right through carry.
    Ror,
    /// Increment.
    Inc,
    /// Decrement.
    Dec,
}

/// The RmwKind of opcode `op`.
pub open spec fn rmw_kind_of(op: u8) -> RmwKind {
    if op == ASL || op == ASL_ABS || op == ASL_ZP || op == ASL_ZP_X || op == ASL_ABS_X {
        RmwKind::Asl
    } else if op == LSR || op == LSR_ABS || op == LSR_ZP || op == LSR_ZP_X || op == LSR_ABS_X {
        RmwKind::Lsr
    } else if op == ROL || op == ROL_ABS || op == ROL_ZP || op == ROL_ZP_X || op == ROL_ABS_X {
        RmwKind::Rol
    } else if op == ROR || op == ROR_ABS || op == ROR_ZP || op == ROR_ZP_X || op == ROR_ABS_X {
        RmwKind::Ror
    } else if op == INC_ABS || op == INC_ZP || op == INC_ZP_X || op == INC_ABS_X {
        RmwKind::Inc
    } else {
        RmwKind::Dec
    }
}

/// The RmwKind of opcode `op`.
pub fn rmw_kind(op: u8) -> (r: RmwKind)
    ensures
        r == rmw_kind_of(op),
{
    if op == ASL || op == ASL_ABS || op == ASL_ZP || op == ASL_ZP_X || op == ASL_ABS_X {
        RmwKind::Asl
    } else if op == LSR || op == LSR_ABS || op == LSR_ZP || op == LSR_ZP_X || op == LSR_ABS_X {
        RmwKind::Lsr
    } else if op == ROL || op == ROL_ABS || op == ROL_ZP || op == ROL_ZP_X || op == ROL_ABS_X {
        RmwKind::Rol
    } else if op == ROR || op == ROR_ABS || op == ROR_ZP || op == ROR_ZP_X || op == ROR_ABS_X {
        RmwKind::Ror
    } else if op == INC_ABS || op == INC_ZP || op == INC_ZP_X || op == INC_ABS_X {
        RmwKind::Inc
    } else {
        RmwKind::Dec
    }
}

/// The register a store instruction writes.
#[derive(Clone, Copy, PartialEq, Eq, Structural, Debug)]
pub enum StoreReg {
    /// The accumulator.
    A,
    /// X.
    X,
    /// Y.
    Y,
}

/// The StoreReg of opcode `op`.
pub open spec fn store_reg_of(op: u8) -> StoreReg {
    if op == STA_ABS || op == STA_ZP || op == STA_ZP_X || op == STA_ABS_X || op == STA_ABS_Y || op == STA_IND_X || op == STA_IND_Y {
        StoreReg::A
    } else if op == STX_ABS || op == STX_ZP || op == STX_ZP_Y {
        StoreReg::X
    } else {
        StoreReg::Y
    }
}

/// The StoreReg of opcode `op`.
pub fn store_reg(op: u8) -> (r: StoreReg)
    ensures
        r == store_reg_of(op),
{
    if op == STA_ABS || op == STA_ZP || op == STA_ZP_X || op == STA_ABS_X || op == STA_ABS_Y || op == STA_IND_X || op == STA_IND_Y {
        StoreReg::A
    } else if op == STX_ABS || op == STX_ZP || op == STX_ZP_Y {
        StoreReg::X
    } else {
        StoreReg::Y
    }
}

/// What a one-byte register instruction does.
#[derive(Clone, Copy, PartialEq, Eq, Structural, Debug)]
pub enum TransferKind {
    /// S to X.
    Tsx,
    /// X to S.
    Txs,
    /// A to X.
    Tax,
    /// X to A.
    Txa,
    /// Y to A.
    Tya,
    /// A to Y.
    Tay,
    /// Decrement X.
    Dex,
    /// Decrement Y.
    Dey,
    /// Increment X.
    Inx,
    /// Increment Y.
    Iny,
}

/// The TransferKind of opcode `op`.
pub open spec fn transfer_kind_of(op: u8) -> TransferKind {
    if op == TSX {
        TransferKind::Tsx
    } else if op == TXS {
        TransferKind::Txs
    } else if op == TAX {
        TransferKind::Tax
    } else if op == TXA {
        TransferKind::Txa
    } else if op == TYA {
        TransferKind::Tya
    } else if op == TAY {
        TransferKind::Tay
    } else if op == DEX {
        TransferKind::Dex
    } else if op == DEY {
        TransferKind::Dey
    } else if op == INX {
        TransferKind::Inx
    } else {
        TransferKind::Iny
    }
}

/// The TransferKind of opcode `op`.
pub fn transfer_kind(op: u8) -> (r: TransferKind)
    ensures
        r == transfer_kind_of(op),
{
    if op == TSX {
        TransferKind::Tsx
    } else if op == TXS {
        TransferKind::Txs
    } else if op == TAX {
        TransferKind::Tax
    } else if op == TXA {
        TransferKind::Txa
    } else if op == TYA {
        TransferKind::Tya
    } else if op == TAY {
        TransferKind::Tay
    } else if op == DEX {
        TransferKind::Dex
    } else if op == DEY {
        TransferKind::Dey
    } else if op == INX {
        TransferKind::Inx
    } else {
        TransferKind::Iny
    }
}

/// The index register of an indexed instruction is Y.
pub open spec fn indexed_by_y(op: u8) -> bool {
    op == LDX_ZP_Y || op == STX_ZP_Y || op == LDA_ABS_Y || op == LDX_ABS_Y || op == EOR_ABS_Y
        || op == AND_ABS_Y || op == ORA_ABS_Y || op == ADC_ABS_Y || op == SBC_ABS_Y || op == CMP_ABS_Y
        || op == STA_ABS_Y
}

/// The index register of an indexed instruction is Y.
pub fn by_y(op: u8) -> (r: bool)
    ensures
        r == indexed_by_y(op),
{
    op == LDX_ZP_Y || op == STX_ZP_Y || op == LDA_ABS_Y || op == LDX_ABS_Y || op == EOR_ABS_Y
        || op == AND_ABS_Y || op == ORA_ABS_Y || op == ADC_ABS_Y || op == SBC_ABS_Y || op == CMP_ABS_Y
        || op == STA_ABS_Y
}

/// The status bit a flag or branch instruction is about, and the value it
/// sets or tests.
pub open spec fn flag_of(op: u8) -> (u8, bool) {
    if op == CLC {
        (0x01, false)
    } else if op == SEC {
        (0x01, true)
    } else if op == CLI {
        (0x04, false)
    } else if op == SEI {
        (0x04, true)
    } else if op == CLV {
        (0x40, false)
    } else if op == CLD {
        (0x08, false)
    } else if op == SED {
        (0x08, true)
    } else if op == BCC {
        (0x01, false)
    } else if op == BCS {
        (0x01, true)
    } else if op == BNE {
        (0x02, false)
    } else if op == BEQ {
        (0x02, true)
    } else if op == BPL {
        (0x80, false)
    } else if op == BMI {
        (0x80, true)
    } else if op == BVC {
        (0x40, false)
    } else {
        (0x40, true)
    }
}

/// The status bit a flag or branch instruction is about, and the value it
/// sets or tests.
pub fn flag(op: u8) -> (r: (u8, bool))
    ensures
        r == flag_of(op),
{
    if op == CLC {
        (0x01, false)
    } else if op == SEC {
        (0x01, true)
    } else if op == CLI {
        (0x04, false)
    } else if op == SEI {
        (0x04, true)
    } else if op == CLV {
        (0x40, false)
    } else if op == CLD {
        (0x08, false)
    } else if op == SED {
        (0x08, true)
    } else if op == BCC {
        (0x01, false)
    } else if op == BCS {
        (0x01, true)
    } else if op == BNE {
        (0x02, false)
    } else if op == BEQ {
        (0x02, true)
    } else if op == BPL {
        (0x80, false)
    } else if op == BMI {
        (0x80, true)
    } else if op == BVC {
        (0x40, false)
    } else {
        (0x40, true)
    }
}

} // verus!
