//! Comparison of CPU traces: the reference log of nestest against the trace
//! that this processor writes, one line at a time. Positions in a line count
//! characters; trace lines are ASCII, where they are byte positions too.
use vstd::prelude::*;
use crate::text::{
    chars_of, decimal, occurs_at, equal_ignoring_ascii_case, eq_ignore_ascii_case, find_from, find_in, hex_byte,
    parse_radix, pieces, push_char, push_decimal, push_hex_byte, push_text, radix_num, same_text,
    split_ranges, string_of, trim_range, trimmed,
};

verus! {

/// One line of a trace, in the fields the comparison looks at.
pub struct LogLine {
    pub line: String,
    pub pc: String,
    pub cycles: u32,
    pub instruction: String,
    pub _mem_value: Option<String>,
    pub registers: String,
    pub v: u16,
    pub h: u16,
}

/// Why no line came: the end of the file, or a line to skip.
#[derive(Debug, Clone, Copy, PartialEq, Eq, Structural)]
pub enum LineStatus {
    EOF,
    SKIP,
}

/// The text an optional string holds.
pub open spec fn text_of(o: Option<String>) -> Option<Seq<char>> {
    match o {
        Some(s) => Some(s@),
        None => None,
    }
}

/// The weight of the flag at position `i`: 128 for the first, halving, 0
/// from the ninth on.
pub open spec fn flag_weight(i: int) -> int {
    if i == 0 {
        128
    } else if i == 1 {
        64
    } else if i == 2 {
        32
    } else if i == 3 {
        16
    } else if i == 4 {
        8
    } else if i == 5 {
        4
    } else if i == 6 {
        2
    } else if i == 7 {
        1
    } else {
        0
    }
}

/// The status byte that a flag string such as `NV..DIZC` writes: every
/// character other than `.` and `B` sets the bit of its position.
pub open spec fn flags_value(f: Seq<char>) -> int
    decreases f.len(),
{
    if f.len() == 0 {
        0
    } else {
        flags_value(f.drop_last()) + if f.last() != '.' && f.last() != 'B' {
            flag_weight(f.len() - 1)
        } else {
            0
        }
    }
}

/// The status byte of a flag string (see `flags_value`).
pub fn parse_flags(f: &str) -> (r: u8)
    ensures
        r == flags_value(f@),
{
    let v = chars_of(f);
    let mut result: u8 = 0;
    let mut value: u8 = 128;
    let mut i: usize = 0;
    while i < v.len()
        invariant
            i <= v.len(),
            v@ == f@,
            result == flags_value(v@.take(i as int)),
            value == flag_weight(i as int),
            i < 8 ==> result + 2 * value <= 256,
        decreases v.len() - i,
    {
        assert(v@.take(i + 1).drop_last() =~= v@.take(i as int));
        if v[i] != '.' && v[i] != 'B' {
            result = result + value;
        }
        proof {
            crate::bit_facts::lemma_u8_fields();
        }
        assert(value >> 1u8 == value / 2);
        value = value >> 1;
        i = i + 1;
    }
    assert(v@.take(v.len() as int) =~= v@);
    result
}

/// `s` up to its first `c`, trimmed; `s` itself where there is no `c`.
pub open spec fn cut_at(s: Seq<char>, c: char) -> Seq<char> {
    match find_in(s, seq![c], 0) {
        Some(k) => trimmed(s.subrange(0, k)),
        None => s,
    }
}

/// `full_asm` up to its first `c`, trimmed (see `cut_at`).
pub fn maybe_remove(full_asm: &str, c: char) -> (r: String)
    ensures
        r@ == cut_at(full_asm@, c),
{
    let v = chars_of(full_asm);
    let pat = vec![c];
    assert(pat@ =~= seq![c]);
    match find_from(&v, &pat, 0) {
        Some(k) => {
            let (a, b) = trim_range(&v, 0, k);
            string_of(&v, a, b)
        },
        None => string_of(&v, 0, v.len()),
    }
}

/// A decimal `u16`, as `u16::from_str_radix(.., 10)` reads it.
pub open spec fn dec_u16(s: Seq<char>) -> Option<u16> {
    match radix_num(s, 10, 0xffff) {
        Some(n) => Some(n as u16),
        None => None,
    }
}

/// A decimal `u32`, as `u32::from_str_radix(.., 10)` reads it.
pub open spec fn dec_u32(s: Seq<char>) -> Option<u32> {
    match radix_num(s, 10, 0xffff_ffff) {
        Some(n) => Some(n as u32),
        None => None,
    }
}

/// The PPU position (V, H) of a nestest line: after `PPU:`, V runs up to the
/// next comma and H from there up to `CYC:` (or the end); (0, 0) where the
/// line has no `PPU:`. None where the fields are out of order or do not read.
pub open spec fn nestest_ppu(l: Seq<char>) -> Option<(u16, u16)> {
    match find_in(l, "PPU:"@, 0) {
        None => Some((0, 0)),
        Some(p) => {
            let c = match find_in(l, ","@, p) {
                Some(k) => k - p,
                None => 0,
            };
            let cy = match find_in(l, "CYC:"@, p) {
                Some(k) => k - p,
                None => l.len() - p,
            };
            if c < 4 || c + 1 > cy {
                None
            } else {
                let v = dec_u16(trimmed(l.subrange(p + 4, p + c)));
                let h = dec_u16(trimmed(l.subrange(p + c + 1, p + cy)));
                if v is Some && h is Some {
                    Some((v->0, h->0))
                } else {
                    None
                }
            }
        },
    }
}

/// The cycle count of a nestest line: the decimal after `CYC:`.
pub open spec fn nestest_cycles(l: Seq<char>) -> Option<u32> {
    match find_in(l, "CYC:"@, 0) {
        Some(q) => dec_u32(trimmed(l.subrange(q + 4, l.len() as int))),
        None => dec_u32(seq![]),
    }
}

/// The instruction of a nestest line (columns 16 to 48, cut at `@`, `=` and
/// `|`), and the memory value written after ` = ` where there is one.
pub open spec fn nestest_asm(l: Seq<char>) -> (Seq<char>, Option<Seq<char>>) {
    let full = if l.len() >= 48 {
        trimmed(l.subrange(16, 48))
    } else {
        seq![]
    };
    let a = cut_at(cut_at(cut_at(full, '@'), '='), '|');
    match find_in(a, " = "@, 0) {
        Some(e) => (trimmed(a.subrange(0, e)), Some(a.subrange(e + 3, a.len() as int))),
        None => (a, None),
    }
}

/// A nestest line reads: it is empty (the end of the file), or its PPU
/// position and its cycle count read.
pub open spec fn nestest_readable(l: Seq<char>) -> bool {
    l.len() == 0 || (nestest_ppu(l) is Some && nestest_cycles(l) is Some)
}

fn nestest_ppu_of(v: &Vec<char>) -> (r: Option<(u16, u16)>)
    ensures
        r == nestest_ppu(v@),
{
    let ppu = chars_of("PPU:");
    proof {
        reveal_strlit("PPU:");
        reveal_strlit(",");
        reveal_strlit("CYC:");
    }
    match find_from(v, &ppu, 0) {
        None => Some((0, 0)),
        Some(p) => {
            let comma = chars_of(",");
            let cyc = chars_of("CYC:");
            let c = match find_from(v, &comma, p) {
                Some(k) => k - p,
                None => 0,
            };
            let cy = match find_from(v, &cyc, p) {
                Some(k) => k - p,
                None => v.len() - p,
            };
            if c < 4 || c >= cy {
                return None;
            }
            let (a, b) = trim_range(v, p + 4, p + c);
            let vv = parse_radix(v, a, b, 10, 0xffff);
            let (a2, b2) = trim_range(v, p + c + 1, p + cy);
            let hh = parse_radix(v, a2, b2, 10, 0xffff);
            match (vv, hh) {
                (Some(x), Some(y)) => {
                    assert(x <= 0xffff && y <= 0xffff);
                    Some((x as u16, y as u16))
                },
                _ => None,
            }
        },
    }
}

fn nestest_cycles_of(v: &Vec<char>) -> (r: Option<u32>)
    ensures
        r == nestest_cycles(v@),
{
    let cyc = chars_of("CYC:");
    proof {
        reveal_strlit("CYC:");
    }
    match find_from(v, &cyc, 0) {
        Some(q) => {
            assert(cyc@ =~= seq!['C', 'Y', 'C', ':']);
            assert(occurs_at(v@, cyc@, q as int));
            let len = v.len();
            assert(q + 4 <= len);
            let (a, b) = trim_range(v, q + 4, len);
            match parse_radix(v, a, b, 10, 0xffff_ffff) {
                Some(n) => Some(n as u32),
                None => None,
            }
        },
        None => {
            assert(crate::text::radix_num(seq![], 10, 0xffff_ffff) is None);
            None
        },
    }
}

/// Whether `line` is a nestest line that `parse_nestest_line` reads.
pub fn is_nestest_line(line: &str) -> (r: bool)
    ensures
        r == nestest_readable(line@),
{
    let v = chars_of(line);
    v.len() == 0 || (nestest_ppu_of(&v).is_some() && nestest_cycles_of(&v).is_some())
}

/// Reads a line of the nestest log: the address, the registers (columns 48
/// to 73), the PPU position, the cycle count and the instruction; an empty
/// line is the end of the file.
pub fn parse_nestest_line(line: &str) -> (r: Result<LogLine, LineStatus>)
    requires
        nestest_readable(line@),
    ensures
        line@.len() == 0 ==> r == Err::<LogLine, LineStatus>(LineStatus::EOF),
        line@.len() > 0 ==> (r matches Ok(l) && {
            let s = line@;
            &&& l.line@ == s
            &&& l.pc@ == (if s.len() >= 4 {
                s.subrange(0, 4)
            } else {
                seq![]
            })
            &&& l.registers@ == (if s.len() >= 73 {
                trimmed(s.subrange(48, 73))
            } else {
                seq![]
            })
            &&& (l.v, l.h) == nestest_ppu(s)->0
            &&& l.cycles == nestest_cycles(s)->0
            &&& (l.instruction@, text_of(l._mem_value)) == nestest_asm(s)
        }),
{
    let v = chars_of(line);
    if v.len() == 0 {
        return Err(LineStatus::EOF);
    }
    let pc = if v.len() >= 4 {
        string_of(&v, 0, 4)
    } else {
        string_of(&v, 0, 0)
    };
    let registers = if v.len() >= 73 {
        let (a, b) = trim_range(&v, 48, 73);
        string_of(&v, a, b)
    } else {
        string_of(&v, 0, 0)
    };
    let (pv, ph) = match nestest_ppu_of(&v) {
        Some(p) => p,
        None => (0, 0),
    };
    let cycles = match nestest_cycles_of(&v) {
        Some(c) => c,
        None => 0,
    };
    let full_asm = if v.len() >= 48 {
        let (a, b) = trim_range(&v, 16, 48);
        string_of(&v, a, b)
    } else {
        string_of(&v, 0, 0)
    };
    let a1 = maybe_remove(full_asm.as_str(), '@');
    let a2 = maybe_remove(a1.as_str(), '=');
    let a3 = maybe_remove(a2.as_str(), '|');
    let w = chars_of(a3.as_str());
    let eq = chars_of(" = ");
    proof {
        reveal_strlit(" = ");
    }
    let (instruction, mem_value) = match find_from(&w, &eq, 0) {
        Some(e) => {
            let (a, b) = trim_range(&w, 0, e);
            (string_of(&w, a, b), Some(string_of(&w, e + 3, w.len())))
        },
        None => (string_of(&w, 0, w.len()), None),
    };
    assert(w@.subrange(0, w@.len() as int) =~= w@);
    assert(v@.subrange(0, 0) =~= Seq::<char>::empty());
    Ok(
        LogLine {
            line: string_of(&v, 0, v.len()),
            pc,
            cycles,
            instruction,
            _mem_value: mem_value,
            registers,
            v: pv,
            h: ph,
        },
    )
}

/// The registers as this processor's trace shows them.
pub open spec fn registers_text(a: u8, x: u8, y: u8, p: u8, sp: u8) -> Seq<char> {
    "A:"@ + hex_byte(a) + " X:"@ + hex_byte(x) + " Y:"@ + hex_byte(y) + " P:"@ + hex_byte(p) + " SP:"@
        + hex_byte(sp)
}

/// Words 11 to `10 + n` of `d`, joined by single spaces.
pub open spec fn joined_words(d: Seq<Seq<char>>, n: nat) -> Seq<char>
    decreases n,
{
    if n == 0 {
        seq![]
    } else if n == 1 {
        d[11]
    } else {
        joined_words(d, (n - 1) as nat) + seq![' '] + d[10 + n as int]
    }
}

/// The fields of a line of this processor's trace (PC, cycles, instruction,
/// registers, V, H). After the first `-` come H and V, separated by a comma;
/// after the second, words separated by single spaces: the cycle count (word
/// 1), A, X and Y (words 2 to 4, hexadecimal), S (word 5, hexadecimal, its
/// low byte), the flags (word 6), the PC (word 7 less its last character)
/// and the instruction (words 11 to 18, up to a `|`). None where a field is
/// missing or does not read.
pub open spec fn trace_fields(l: Seq<char>) -> Option<(Seq<char>, u32, Seq<char>, Seq<char>, u16, u16)> {
    let dashes = pieces(l, '-');
    if dashes.len() < 3 {
        None
    } else {
        let hv = pieces(dashes[1], ',');
        let d = pieces(dashes[2], ' ');
        if hv.len() < 2 || d.len() < 19 {
            None
        } else {
            let h = dec_u16(trimmed(hv[0]));
            let v = dec_u16(trimmed(hv[1]));
            let cycles = dec_u32(d[1]);
            let a = radix_num(d[2], 16, 0xff);
            let x = radix_num(d[3], 16, 0xff);
            let y = radix_num(d[4], 16, 0xff);
            let sp = radix_num(d[5], 16, 0xffff);
            if h is None || v is None || cycles is None || a is None || x is None || y is None || sp is None
                || d[7].len() == 0 {
                None
            } else {
                let t = trimmed(joined_words(d, 8));
                let cut = match find_in(t, seq!['|'], 0) {
                    Some(k) => t.subrange(0, k),
                    None => t,
                };
                Some(
                    (
                        d[7].drop_last(),
                        cycles->0,
                        trimmed(cut),
                        registers_text(
                            a->0 as u8,
                            x->0 as u8,
                            y->0 as u8,
                            flags_value(d[6]) as u8,
                            (sp->0 % 256) as u8,
                        ),
                        v->0,
                        h->0,
                    ),
                )
            }
        }
    }
}

/// A trace line reads: it is empty (the end of the file), or its fields read.
pub open spec fn trace_readable(l: Seq<char>) -> bool {
    l.len() == 0 || trace_fields(l) is Some
}

fn push_range(s: &mut Vec<char>, v: &Vec<char>, lo: usize, hi: usize)
    requires
        lo <= hi <= v.len(),
    ensures
        final(s)@ == old(s)@ + v@.subrange(lo as int, hi as int),
{
    let mut i = lo;
    while i < hi
        invariant
            lo <= i <= hi <= v.len(),
            s@ == old(s)@ + v@.subrange(lo as int, i as int),
        decreases hi - i,
    {
        s.push(v[i]);
        assert(v@.subrange(lo as int, i + 1) =~= v@.subrange(lo as int, i as int).push(v@[i as int]));
        i = i + 1;
    }
}

fn registers_string(a: u8, x: u8, y: u8, p: u8, sp: u8) -> (r: String)
    ensures
        r@ == registers_text(a, x, y, p, sp),
{
    let mut s = String::new();
    push_text(&mut s, "A:");
    push_hex_byte(&mut s, a);
    push_text(&mut s, " X:");
    push_hex_byte(&mut s, x);
    push_text(&mut s, " Y:");
    push_hex_byte(&mut s, y);
    push_text(&mut s, " P:");
    push_hex_byte(&mut s, p);
    push_text(&mut s, " SP:");
    push_hex_byte(&mut s, sp);
    s
}

#[verifier::rlimit(40)]
fn trace_fields_of(v: &Vec<char>) -> (r: Option<(String, u32, String, String, u16, u16)>)
    ensures
        match r {
            Some(f) => trace_fields(v@) == Some((f.0@, f.1, f.2@, f.3@, f.4, f.5)),
            None => trace_fields(v@) is None,
        },
{
    let dashes = split_ranges(v, 0, v.len(), '-');
    assert(v@.subrange(0, v.len() as int) =~= v@);
    let ghost dt = pieces(v@, '-');
    assert(dt.len() == dashes@.len());
    if dashes.len() < 3 {
        return None;
    }
    let (s1, e1) = dashes[1];
    let (s2, e2) = dashes[2];
    assert(dt[1] == v@.subrange(s1 as int, e1 as int));
    assert(dt[2] == v@.subrange(s2 as int, e2 as int));
    let hv = split_ranges(v, s1, e1, ',');
    let d = split_ranges(v, s2, e2, ' ');
    let ghost ht = pieces(dt[1], ',');
    let ghost ds = pieces(dt[2], ' ');
    assert(ht.len() == hv@.len());
    assert(ds.len() == d@.len());
    if hv.len() < 2 || d.len() < 19 {
        return None;
    }
    assert(forall|k: int| 0 <= k < 19 ==> ds[k] == v@.subrange(d@[k].0 as int, d@[k].1 as int));
    assert(ht[0] == v@.subrange(hv@[0].0 as int, hv@[0].1 as int));
    assert(ht[1] == v@.subrange(hv@[1].0 as int, hv@[1].1 as int));
    let (ha, hb) = trim_range(v, hv[0].0, hv[0].1);
    let h = parse_radix(v, ha, hb, 10, 0xffff);
    let (va, vb) = trim_range(v, hv[1].0, hv[1].1);
    let vv = parse_radix(v, va, vb, 10, 0xffff);
    let cycles = parse_radix(v, d[1].0, d[1].1, 10, 0xffff_ffff);
    let a = parse_radix(v, d[2].0, d[2].1, 16, 0xff);
    let x = parse_radix(v, d[3].0, d[3].1, 16, 0xff);
    let y = parse_radix(v, d[4].0, d[4].1, 16, 0xff);
    let sp = parse_radix(v, d[5].0, d[5].1, 16, 0xffff);
    let (h, vv, cycles, a, x, y, sp) = match (h, vv, cycles, a, x, y, sp) {
        (Some(h), Some(vv), Some(c), Some(a), Some(x), Some(y), Some(sp)) => (h, vv, c, a, x, y, sp),
        _ => {
            return None;
        },
    };
    if d[7].1 == d[7].0 {
        return None;
    }
    let flags_text = string_of(v, d[6].0, d[6].1);
    let flags = parse_flags(flags_text.as_str());
    let pc = string_of(v, d[7].0, d[7].1 - 1);
    assert(v@.subrange(d@[7].0 as int, d@[7].1 - 1) =~= ds[7].drop_last());
    let mut w: Vec<char> = Vec::new();
    push_range(&mut w, v, d[11].0, d[11].1);
    let mut n: usize = 1;
    while n < 8
        invariant
            1 <= n <= 8,
            d@.len() >= 19,
            ds.len() == d@.len(),
            forall|k: int| 0 <= k < 19 ==> ds[k] == v@.subrange(d@[k].0 as int, d@[k].1 as int),
            forall|k: int| #![trigger d@[k]] 0 <= k < d@.len() ==> d@[k].0 <= d@[k].1 <= v@.len(),
            w@ == joined_words(ds, n as nat),
        decreases 8 - n,
    {
        w.push(' ');
        push_range(&mut w, v, d[11 + n].0, d[11 + n].1);
        n = n + 1;
    }
    let (ta, tb) = trim_range(&w, 0, w.len());
    assert(w@.subrange(0, w@.len() as int) =~= w@);
    let t_text = string_of(&w, ta, tb);
    let t = chars_of(t_text.as_str());
    let bar = vec!['|'];
    assert(bar@ =~= seq!['|']);
    let end = match find_from(&t, &bar, 0) {
        Some(k) => k,
        None => t.len(),
    };
    assert(t@.subrange(0, t@.len() as int) =~= t@);
    let (ia, ib) = trim_range(&t, 0, end);
    let instruction = string_of(&t, ia, ib);
    let registers = registers_string(a as u8, x as u8, y as u8, flags, (sp % 256) as u8);
    Some((pc, cycles as u32, instruction, registers, vv as u16, h as u16))
}

/// Whether `line` is a trace line that `parse_cpu_trace_line` reads.
pub fn is_cpu_trace_line(line: &str) -> (r: bool)
    ensures
        r == trace_readable(line@),
{
    let v = chars_of(line);
    v.len() == 0 || trace_fields_of(&v).is_some()
}

/// Reads a line of this processor's trace (see `trace_fields`); an empty
/// line is the end of the file.
pub fn parse_cpu_trace_line(line: &str) -> (r: Result<LogLine, LineStatus>)
    requires
        trace_readable(line@),
    ensures
        line@.len() == 0 ==> r == Err::<LogLine, LineStatus>(LineStatus::EOF),
        line@.len() > 0 ==> (r matches Ok(l) && {
            &&& l.line@ == line@
            &&& trace_fields(line@) == Some((l.pc@, l.cycles, l.instruction@, l.registers@, l.v, l.h))
            &&& l._mem_value is None
        }),
{
    let v = chars_of(line);
    if v.len() == 0 {
        return Err(LineStatus::EOF);
    }
    match trace_fields_of(&v) {
        Some((pc, cycles, instruction, registers, pv, ph)) => {
            assert(v@.subrange(0, v.len() as int) =~= v@);
            Ok(
                LogLine {
                    line: string_of(&v, 0, v.len()),
                    pc,
                    cycles,
                    instruction,
                    _mem_value: None,
                    registers,
                    v: pv,
                    h: ph,
                },
            )
        },
        None => Err(LineStatus::EOF),
    }
}

/// What `{:?}` writes for a string: the text quoted, with escapes.
pub uninterp spec fn str_debug(s: Seq<char>) -> Seq<char>;

/// The debug form of `s` (`<str as Debug>::fmt`, through `format!("{:?}")`):
/// the contract names it `str_debug`, a function of the text alone.
#[verifier::external_body]
fn debug_text(s: &str) -> (r: String)
    ensures
        r@ == str_debug(s@),
{
    format!("{:?}", s)
}

/// What tells two trace lines apart, in order: the PC, the cycle count, the
/// instruction (ignoring ASCII case), the registers, V and H.
pub open spec fn mismatches(a: LogLine, b: LogLine) -> Seq<Seq<char>> {
    let pc = if a.pc@ != b.pc@ {
        seq!["Different PC: "@ + a.pc@ + " vs "@ + b.pc@]
    } else {
        seq![]
    };
    let cycle = if a.cycles != b.cycles {
        seq!["Different cycle: "@ + decimal(a.cycles as nat) + " vs "@ + decimal(b.cycles as nat)]
    } else {
        seq![]
    };
    let instruction = if !equal_ignoring_ascii_case(a.instruction@, b.instruction@) {
        seq!["Different asm: "@ + str_debug(a.instruction@) + " vs "@ + str_debug(b.instruction@)]
    } else {
        seq![]
    };
    let registers = if a.registers@ != b.registers@ {
        seq!["Different registers:\n"@ + a.registers@ + "\n"@ + b.registers@]
    } else {
        seq![]
    };
    let v = if a.v != b.v {
        seq!["Different V: "@ + decimal(a.v as nat) + " vs "@ + decimal(b.v as nat)]
    } else {
        seq![]
    };
    let h = if a.h != b.h {
        seq!["Different H: "@ + decimal(a.h as nat) + " vs "@ + decimal(b.h as nat)]
    } else {
        seq![]
    };
    pc + cycle + instruction + registers + v + h
}

fn message(prefix: &str, a: &str, middle: &str, b: &str) -> (r: String)
    ensures
        r@ == prefix@ + a@ + middle@ + b@,
{
    let mut s = String::new();
    push_text(&mut s, prefix);
    push_text(&mut s, a);
    push_text(&mut s, middle);
    push_text(&mut s, b);
    s
}

fn number_message(prefix: &str, a: u32, b: u32) -> (r: String)
    ensures
        r@ == prefix@ + decimal(a as nat) + " vs "@ + decimal(b as nat),
{
    let mut s = String::new();
    push_text(&mut s, prefix);
    push_decimal(&mut s, a as u128);
    push_text(&mut s, " vs ");
    push_decimal(&mut s, b as u128);
    s
}

/// The differences between two trace lines (see `mismatches`), or None where
/// they agree.
pub fn lines_match(line1: &LogLine, line2: &LogLine) -> (r: Option<Vec<String>>)
    ensures
        mismatches(*line1, *line2).len() == 0 ==> r is None,
        mismatches(*line1, *line2).len() > 0 ==> (r matches Some(m) && m@.map_values(|t: String| t@)
            == mismatches(*line1, *line2)),
{
    let mut result: Vec<String> = Vec::new();
    let ghost a = *line1;
    let ghost b = *line2;
    if !same_text(line1.pc.as_str(), line2.pc.as_str()) {
        result.push(message("Different PC: ", line1.pc.as_str(), " vs ", line2.pc.as_str()));
    }
    let ghost m1 = result@.map_values(|t: String| t@);
    assert(m1 =~= (if a.pc@ != b.pc@ {
        seq!["Different PC: "@ + a.pc@ + " vs "@ + b.pc@]
    } else {
        seq![]
    }));
    if line1.cycles != line2.cycles {
        result.push(number_message("Different cycle: ", line1.cycles, line2.cycles));
    }
    let ghost m2 = result@.map_values(|t: String| t@);
    if !eq_ignore_ascii_case(line1.instruction.as_str(), line2.instruction.as_str()) {
        let d1 = debug_text(line1.instruction.as_str());
        let d2 = debug_text(line2.instruction.as_str());
        result.push(message("Different asm: ", d1.as_str(), " vs ", d2.as_str()));
    }
    let ghost m3 = result@.map_values(|t: String| t@);
    if !same_text(line1.registers.as_str(), line2.registers.as_str()) {
        result.push(message("Different registers:\n", line1.registers.as_str(), "\n", line2.registers.as_str()));
    }
    let ghost m4 = result@.map_values(|t: String| t@);
    if line1.v != line2.v {
        result.push(number_message("Different V: ", line1.v as u32, line2.v as u32));
    }
    let ghost m5 = result@.map_values(|t: String| t@);
    if line1.h != line2.h {
        result.push(number_message("Different H: ", line1.h as u32, line2.h as u32));
    }
    let ghost m6 = result@.map_values(|t: String| t@);
    assert(m6 =~= mismatches(a, b));
    if result.len() == 0 {
        None
    } else {
        Some(result)
    }
}

} // verus!
