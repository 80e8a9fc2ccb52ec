use nes::cpu::compare_logs::{
    is_cpu_trace_line, is_nestest_line, lines_match, maybe_remove, parse_cpu_trace_line, parse_flags,
    parse_nestest_line, LineStatus,
};

const NESTEST: &str =
    "C000  4C F5 C5  JMP $C5F5                       A:00 X:00 Y:00 P:24 SP:FD PPU:  0, 21 CYC:7\n";
const TRACE: &str =
    "INFO:asm - 033,000 - 00000008 00 00 00 01FD ..RB.I.. C000: 4C F5 C5   JMP $C5F5     |\n";

#[test]
fn flags_set_a_bit_for_each_letter_but_b() {
    assert_eq!(parse_flags("NV..DIZC"), 0xcf);
    assert_eq!(parse_flags("..RB.I.."), 0x24);
    assert_eq!(parse_flags(""), 0);
    assert_eq!(parse_flags("NNNNNNNNNN"), 0xff);
}

#[test]
fn maybe_remove_cuts_at_the_first_occurrence() {
    assert_eq!(maybe_remove("STX $00 = 00", '='), "STX $00");
    assert_eq!(maybe_remove("JMP $C5F5", '@'), "JMP $C5F5");
    assert_eq!(maybe_remove("LDA ($80,X) @ 80 = 0200", '@'), "LDA ($80,X)");
}

#[test]
fn nestest_lines_read_their_columns() {
    assert!(is_nestest_line(NESTEST));
    let line = parse_nestest_line(NESTEST).unwrap();
    assert_eq!(line.line, NESTEST);
    assert_eq!(line.pc, "C000");
    assert_eq!(line.registers, "A:00 X:00 Y:00 P:24 SP:FD");
    assert_eq!(line.instruction, "JMP $C5F5");
    assert_eq!(line._mem_value, None);
    assert_eq!((line.v, line.h, line.cycles), (0, 21, 7));
    assert!(matches!(parse_nestest_line(""), Err(LineStatus::EOF)));
}

#[test]
fn nestest_lines_without_cycles_do_not_read() {
    assert!(!is_nestest_line("C000  4C F5 C5  JMP $C5F5\n"));
    assert!(!is_nestest_line("C000 PPU:12 CYC:7\n"));
    assert!(is_nestest_line("C000 CYC:7\n"));
    assert!(is_nestest_line(""));
}

#[test]
fn trace_lines_read_their_words() {
    assert!(is_cpu_trace_line(TRACE));
    let line = parse_cpu_trace_line(TRACE).unwrap();
    assert_eq!(line.pc, "C000");
    assert_eq!(line.cycles, 8);
    assert_eq!(line.instruction, "JMP $C5F5");
    assert_eq!(line.registers, "A:00 X:00 Y:00 P:24 SP:FD");
    assert_eq!((line.v, line.h), (0, 33));
    assert!(!is_cpu_trace_line("no dashes here\n"));
    assert!(matches!(parse_cpu_trace_line(""), Err(LineStatus::EOF)));
}

#[test]
fn lines_match_lists_the_differences() {
    let a = parse_nestest_line(NESTEST).unwrap();
    let b = parse_cpu_trace_line(TRACE).unwrap();
    assert_eq!(
        lines_match(&a, &b),
        Some(vec!["Different cycle: 7 vs 8".to_string(), "Different H: 21 vs 33".to_string()])
    );
    assert_eq!(lines_match(&a, &a), None);
    let mut c = parse_nestest_line(NESTEST).unwrap();
    c.instruction = "jmp $c5f5".to_string();
    assert_eq!(lines_match(&a, &c), None);
    c.instruction = "LDA #$00".to_string();
    assert_eq!(
        lines_match(&a, &c),
        Some(vec!["Different asm: \"JMP $C5F5\" vs \"LDA #$00\"".to_string()])
    );
}
