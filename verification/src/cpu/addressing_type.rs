//! The operand forms of 6502 instructions, and how a disassembly writes them.
use vstd::prelude::*;
use crate::cpu::labels::Labels;
use crate::cpu::spec::{wadd16, wsub16};
use crate::text::{hex_char, push_char, push_hex_digit};

verus! {

#[derive(PartialEq, Eq, Structural, Debug, Copy, Clone)]
#[allow(non_camel_case_types)]
pub enum AddressingType {
    Immediate,
    Zp,
    Zp_X,
    Zp_Y,
    Absolute,
    Absolute_X,
    Absolute_Y,
    Indirect_X,
    Indirect_Y,
    Register_A,
    Indirect,
    Relative,
    Zpi,
    Zp_Relative,
    Indirect_Abs_X,
    Unknown,
}


/// `$` and the two hexadecimal digits of `v`.
pub open spec fn hex2(v: u8) -> Seq<char> {
    seq!['$', hex_char(v >> 4u8), hex_char(v & 0xf)]
}

/// `$` and the four hexadecimal digits of `v`.
pub open spec fn hex4(v: u16) -> Seq<char> {
    seq![
        '$',
        hex_char(((v >> 12u16) & 0xf) as u8),
        hex_char(((v >> 8u16) & 0xf) as u8),
        hex_char(((v >> 4u16) & 0xf) as u8),
        hex_char((v & 0xf) as u8),
    ]
}

/// A byte: its label where it has one, else `$` and two hexadecimal digits.
pub open spec fn byte_text(v: u8, names: Map<u16, Seq<char>>) -> Seq<char> {
    if names.contains_key(v as u16) {
        names[v as u16]
    } else {
        hex2(v)
    }
}

/// A word: its label where it has one, else `$` and four hexadecimal digits.
pub open spec fn word_text(v: u16, names: Map<u16, Seq<char>>) -> Seq<char> {
    if names.contains_key(v) {
        names[v]
    } else {
        hex4(v)
    }
}

/// The branch target of a relative operand: two bytes after the
/// instruction, `byte` taken as signed (from $7F on).
pub open spec fn relative_target(pc: u16, byte: u8) -> u16 {
    let t = wadd16(wadd16(pc, 2), byte as u16);
    if byte >= 0x7f {
        wsub16(t, 0x100)
    } else {
        t
    }
}

/// The branch target of a zero page relative operand: the offset is the
/// high byte of `word`, taken as signed, counted three bytes after the
/// instruction.
pub open spec fn zp_relative_target(pc: u16, word: u16) -> u16 {
    let offset = (word >> 8u16) & 0xff;
    let t = (wadd16(pc, offset) + 3) as u16;
    if offset >= 0x80 {
        wsub16(t, 0x100)
    } else {
        t
    }
}

/// The operand as a disassembly writes it.
pub open spec fn operand_text(
    t: AddressingType,
    pc: u16,
    byte: u8,
    word: u16,
    names: Map<u16, Seq<char>>,
) -> Seq<char> {
    match t {
        AddressingType::Immediate => seq!['#'] + byte_text(byte, names),
        AddressingType::Zp => byte_text(byte, names),
        AddressingType::Zp_X => byte_text(byte, names) + seq![',', 'X'],
        AddressingType::Zp_Y => byte_text(byte, names) + seq![',', 'Y'],
        AddressingType::Zpi => seq!['('] + byte_text(byte, names) + seq![')'],
        AddressingType::Absolute => word_text(word, names),
        AddressingType::Absolute_X => word_text(word, names) + seq![',', 'X'],
        AddressingType::Absolute_Y => word_text(word, names) + seq![',', 'Y'],
        AddressingType::Indirect_X => seq!['('] + byte_text(byte, names) + seq![',', 'X', ')'],
        AddressingType::Indirect_Y => seq!['('] + byte_text(byte, names) + seq![')', ',', 'Y'],
        AddressingType::Indirect => seq!['('] + word_text(word, names) + seq![')'],
        AddressingType::Indirect_Abs_X => seq!['('] + word_text(word, names) + seq![',', 'X', ')'],
        AddressingType::Zp_Relative => word_text(zp_relative_target(pc, word), names),
        AddressingType::Relative => word_text(relative_target(pc, byte), names),
        AddressingType::Register_A | AddressingType::Unknown => seq![],
    }
}


fn push_str(s: &mut String, t: &Vec<char>)
    ensures
        final(s)@ == old(s)@ + t@,
{
    let mut i: usize = 0;
    while i < t.len()
        invariant
            i <= t.len(),
            s@ == old(s)@ + t@.subrange(0, i as int),
        decreases t.len() - i,
    {
        push_char(s, t[i]);
        assert(t@.subrange(0, i + 1) =~= t@.subrange(0, i as int).push(t@[i as int]));
        i = i + 1;
    }
    assert(t@.subrange(0, t.len() as int) =~= t@);
}

/// `h`: the byte's label, or `$` and two hexadecimal digits.
fn h(v: u8, labels: &Labels) -> (r: String)
    ensures
        r@ == byte_text(v, labels.names()),
{
    match labels.get(&(v as u16)) {
        Some(label) => label.clone(),
        None => {
            let mut s = String::new();
            push_char(&mut s, '$');
            proof {
                crate::bit_facts::lemma_u8_fields();
            }
            assert(v >> 4u8 < 16u8 && v & 0xf < 16u8);
            push_hex_digit(&mut s, v >> 4);
            push_hex_digit(&mut s, v & 0xf);
            assert(s@ =~= hex2(v));
            s
        },
    }
}

/// `hh`: the word's label, or `$` and four hexadecimal digits.
fn hh(v: u16, labels: &Labels) -> (r: String)
    ensures
        r@ == word_text(v, labels.names()),
{
    match labels.get(&v) {
        Some(label) => label.clone(),
        None => {
            let mut s = String::new();
            push_char(&mut s, '$');
            assert(((v >> 12u16) & 0xf) < 16u16 && ((v >> 8u16) & 0xf) < 16u16 && ((v >> 4u16) & 0xf)
                < 16u16 && (v & 0xf) < 16u16) by (bit_vector);
            push_hex_digit(&mut s, ((v >> 12) & 0xf) as u8);
            push_hex_digit(&mut s, ((v >> 8) & 0xf) as u8);
            push_hex_digit(&mut s, ((v >> 4) & 0xf) as u8);
            push_hex_digit(&mut s, (v & 0xf) as u8);
            assert(s@ =~= hex4(v));
            s
        },
    }
}

impl AddressingType {
    /// The operand as a disassembly writes it, labels standing for the
    /// addresses they name.
    pub fn to_string(&self, pc: u16, byte: u8, word: u16, labels: &Labels) -> (r: String)
        requires
            *self == AddressingType::Zp_Relative ==> wadd16(pc, (word >> 8u16) & 0xff) + 3
                <= 0xffff,
        ensures
            r@ == operand_text(*self, pc, byte, word, labels.names()),
    {
        let mut s = String::new();
        match self {
            AddressingType::Immediate => {
                push_char(&mut s, '#');
                push_str(&mut s, &crate::text::chars_of(h(byte, labels).as_str()));
            },
            AddressingType::Zp => {
                s = h(byte, labels);
            },
            AddressingType::Zp_X => {
                s = h(byte, labels);
                push_char(&mut s, ',');
                push_char(&mut s, 'X');
            },
            AddressingType::Zp_Y => {
                s = h(byte, labels);
                push_char(&mut s, ',');
                push_char(&mut s, 'Y');
            },
            AddressingType::Zpi => {
                push_char(&mut s, '(');
                push_str(&mut s, &crate::text::chars_of(h(byte, labels).as_str()));
                push_char(&mut s, ')');
            },
            AddressingType::Absolute => {
                s = hh(word, labels);
            },
            AddressingType::Absolute_X => {
                s = hh(word, labels);
                push_char(&mut s, ',');
                push_char(&mut s, 'X');
            },
            AddressingType::Absolute_Y => {
                s = hh(word, labels);
                push_char(&mut s, ',');
                push_char(&mut s, 'Y');
            },
            AddressingType::Indirect_X => {
                push_char(&mut s, '(');
                push_str(&mut s, &crate::text::chars_of(h(byte, labels).as_str()));
                push_char(&mut s, ',');
                push_char(&mut s, 'X');
                push_char(&mut s, ')');
            },
            AddressingType::Indirect_Y => {
                push_char(&mut s, '(');
                push_str(&mut s, &crate::text::chars_of(h(byte, labels).as_str()));
                push_char(&mut s, ')');
                push_char(&mut s, ',');
                push_char(&mut s, 'Y');
            },
            AddressingType::Indirect => {
                push_char(&mut s, '(');
                push_str(&mut s, &crate::text::chars_of(hh(word, labels).as_str()));
                push_char(&mut s, ')');
            },
            AddressingType::Indirect_Abs_X => {
                push_char(&mut s, '(');
                push_str(&mut s, &crate::text::chars_of(hh(word, labels).as_str()));
                push_char(&mut s, ',');
                push_char(&mut s, 'X');
                push_char(&mut s, ')');
            },
            AddressingType::Zp_Relative => {
                let offset = (word >> 8) & 0xff;
                let mut new_pc = pc.wrapping_add(offset) + 3;
                if offset >= 0x80 {
                    new_pc = new_pc.wrapping_sub(0x100);
                }
                s = hh(new_pc, labels);
            },
            AddressingType::Relative => {
                let mut value = pc.wrapping_add(2).wrapping_add(byte as u16);
                if byte >= 0x7f {
                    value = value.wrapping_sub(0x100);
                }
                s = hh(value, labels);
            },
            _ => {},
        }
        proof {
            assert(s@ =~= operand_text(*self, pc, byte, word, labels.names()));
        }
        s
    }
}

} // verus!
