use nes::cpu::cpu2::{Cpu2, Cpu2Memory, UnknownOpcode};
use nes::memory::Memory;

fn cpu_with(program: &[u8], at: u16) -> Cpu2<Cpu2Memory> {
    let mut memory = Cpu2Memory::default();
    for (i, b) in program.iter().enumerate() {
        memory.set_force(at + i as u16, *b);
    }
    let mut cpu = Cpu2::new(memory);
    cpu.set_pc(at);
    cpu
}

#[test]
fn lda_adc_sta_run_with_their_cycle_counts() {
    // LDA #$05; ADC #$03; STA $10
    let mut cpu = cpu_with(&[0xa9, 0x05, 0x69, 0x03, 0x85, 0x10], 0x0200);
    assert_eq!(cpu.run_one_instruction(), Ok(2));
    assert_eq!(cpu.a, 0x05);
    assert_eq!(cpu.run_one_instruction(), Ok(2));
    assert_eq!(cpu.a, 0x08);
    assert!(!cpu.p.c());
    assert_eq!(cpu.run_one_instruction(), Ok(3));
    assert_eq!(cpu.memory.get_direct(0x10), 0x08);
    assert_eq!(cpu.pc(), 0x0206);
}

#[test]
fn adc_sets_carry_and_overflow() {
    // CLC; LDA #$7f; ADC #$01 -> $80, V set, C clear, N set
    let mut cpu = cpu_with(&[0x18, 0xa9, 0x7f, 0x69, 0x01], 0x0200);
    for _ in 0..3 {
        cpu.run_one_instruction().unwrap();
    }
    assert_eq!(cpu.a, 0x80);
    assert!(cpu.p.v() && !cpu.p.c() && cpu.p.n() && !cpu.p.z());
    // SEC; LDA #$ff; ADC #$01 -> $01 with carry in: $ff + $01 + 1 = $101
    let mut cpu = cpu_with(&[0x38, 0xa9, 0xff, 0x69, 0x01], 0x0200);
    for _ in 0..3 {
        cpu.run_one_instruction().unwrap();
    }
    assert_eq!(cpu.a, 0x01);
    assert!(cpu.p.c() && !cpu.p.v());
}

#[test]
fn sbc_and_cmp_in_binary_mode() {
    // SEC; LDA #$10; SBC #$01 -> $0f, carry kept (no borrow); CMP #$0f -> Z, C
    let mut cpu = cpu_with(&[0x38, 0xa9, 0x10, 0xe9, 0x01, 0xc9, 0x0f], 0x0200);
    cpu.p.set_d(false);
    for _ in 0..3 {
        cpu.run_one_instruction().unwrap();
    }
    assert_eq!(cpu.a, 0x0f);
    assert!(cpu.p.c());
    cpu.run_one_instruction().unwrap();
    assert!(cpu.p.z() && cpu.p.c());
}

#[test]
fn jsr_and_rts_return_after_the_call() {
    // $0200: JSR $0300; $0203: NOP    $0300: RTS
    let mut cpu = cpu_with(&[0x20, 0x00, 0x03, 0xea], 0x0200);
    cpu.memory.set_force(0x0300, 0x60);
    cpu.s = 0xfd;
    assert_eq!(cpu.run_one_instruction(), Ok(6));
    assert_eq!(cpu.pc(), 0x0300);
    assert_eq!(cpu.s, 0xfb);
    assert_eq!(cpu.memory.get_direct(0x01fd), 0x02);
    assert_eq!(cpu.memory.get_direct(0x01fc), 0x02);
    assert_eq!(cpu.run_one_instruction(), Ok(6));
    assert_eq!(cpu.pc(), 0x0203);
    assert_eq!(cpu.s, 0xfd);
}

#[test]
fn branches_count_one_more_cycle_when_taken_and_two_across_a_page() {
    // LDX #$00 (Z set); BNE +2 (not taken: 2 cycles); BEQ +2 (taken, same page: 3)
    let mut cpu = cpu_with(&[0xa2, 0x00, 0xd0, 0x02, 0xf0, 0x02], 0x0200);
    cpu.run_one_instruction().unwrap();
    assert_eq!(cpu.run_one_instruction(), Ok(2));
    assert_eq!(cpu.pc(), 0x0204);
    assert_eq!(cpu.run_one_instruction(), Ok(3));
    assert_eq!(cpu.pc(), 0x0208);
    // BEQ -$10 from $0202 crosses into page $01: 4 cycles
    let mut cpu = cpu_with(&[0xa2, 0x00, 0xf0, 0xf0], 0x0200);
    cpu.run_one_instruction().unwrap();
    assert_eq!(cpu.run_one_instruction(), Ok(4));
    assert_eq!(cpu.pc(), 0x01f4);
}

#[test]
fn indexed_read_takes_an_extra_cycle_across_a_page() {
    // LDX #$01; LDA $02ff,X -> reads $0300
    let mut cpu = cpu_with(&[0xa2, 0x01, 0xbd, 0xff, 0x02], 0x0200);
    cpu.memory.set_force(0x0300, 0x42);
    cpu.run_one_instruction().unwrap();
    assert_eq!(cpu.run_one_instruction(), Ok(5));
    assert_eq!(cpu.a, 0x42);
    // LDX #$01; LDA $0280,X stays in the page: 4 cycles
    let mut cpu = cpu_with(&[0xa2, 0x01, 0xbd, 0x80, 0x02], 0x0200);
    cpu.memory.set_force(0x0281, 0x24);
    cpu.run_one_instruction().unwrap();
    assert_eq!(cpu.run_one_instruction(), Ok(4));
    assert_eq!(cpu.a, 0x24);
}

#[test]
fn inc_zero_page_is_read_modify_write() {
    // INC $10 with $10 = $ff -> $00, Z set; 5 cycles, two writes logged
    let mut cpu = cpu_with(&[0xe6, 0x10], 0x0200);
    cpu.memory.set_force(0x10, 0xff);
    assert_eq!(cpu.run_one_instruction(), Ok(5));
    assert_eq!(cpu.memory.get_direct(0x10), 0x00);
    assert!(cpu.p.z());
    let writes: Vec<_> = cpu.memory.cycles.iter().filter(|c| c.2 == "write").collect();
    assert_eq!(writes.len(), 2);
    assert_eq!((writes[0].0, writes[0].1), (0x10, 0xff));
    assert_eq!((writes[1].0, writes[1].1), (0x10, 0x00));
}

#[test]
fn jmp_indirect_wraps_within_the_page() {
    // JMP ($02ff): low from $02ff, high from $0200
    let mut cpu = cpu_with(&[0x6c, 0xff, 0x02], 0x0400);
    cpu.memory.set_force(0x02ff, 0x34);
    cpu.memory.set_force(0x0200, 0x12);
    cpu.memory.set_force(0x0300, 0x99);
    assert_eq!(cpu.run_one_instruction(), Ok(5));
    assert_eq!(cpu.pc(), 0x1234);
}

#[test]
fn nmi_pushes_pc_and_status_and_jumps_through_the_vector() {
    let mut cpu = cpu_with(&[0xea], 0x0200);
    cpu.memory.set_force(0xfffa, 0x00);
    cpu.memory.set_force(0xfffb, 0x80);
    cpu.memory.set_force(0x8000, 0xea);
    cpu.s = 0xfd;
    cpu.nmi();
    // the six cycles of the interrupt sequence, one bus access each
    for _ in 0..6 {
        let accesses = cpu.memory.cycles.len();
        assert_eq!(cpu.tick(), Ok(1));
        assert_eq!(cpu.memory.cycles.len(), accesses + 1);
    }
    assert_eq!(cpu.pc(), 0x8000);
    assert_eq!(cpu.s, 0xfa);
    // then the fetch of the handler's first opcode
    assert_eq!(cpu.tick(), Ok(1));
    assert_eq!(cpu.pc(), 0x8001);
    assert_eq!(cpu.memory.get_direct(0x01fd), 0x02);
    assert_eq!(cpu.memory.get_direct(0x01fc), 0x00);
    assert!(cpu.p.i());
}

#[test]
fn php_and_plp_round_trip_with_break_flag() {
    // SEC; PHP; CLC; PLP -> carry restored
    let mut cpu = cpu_with(&[0x38, 0x08, 0x18, 0x28], 0x0200);
    cpu.s = 0xfd;
    assert_eq!(cpu.run_one_instruction(), Ok(2));
    assert_eq!(cpu.run_one_instruction(), Ok(3));
    assert_eq!(cpu.memory.get_direct(0x01fd) & 0x11, 0x11);
    assert_eq!(cpu.run_one_instruction(), Ok(2));
    assert!(!cpu.p.c());
    assert_eq!(cpu.run_one_instruction(), Ok(4));
    assert!(cpu.p.c());
}

#[test]
fn unknown_opcode_is_reported_and_stops_the_processor() {
    let mut cpu = cpu_with(&[0x02], 0x0200);
    assert_eq!(cpu.tick(), Err(UnknownOpcode { opcode: 0x02, pc: 0x0201 }));
    assert_eq!(cpu.tick(), Err(UnknownOpcode { opcode: 0x02, pc: 0x0201 }));
    assert_eq!(cpu.one_cycle(), Err(UnknownOpcode { opcode: 0x02, pc: 0x0201 }));
}

#[test]
fn one_cycle_skips_the_cycles_that_do_not_count() {
    // LDX #$01; BEQ +2 (not taken): its third cycle does not count
    let mut cpu = cpu_with(&[0xa2, 0x01, 0xf0, 0x02, 0xea], 0x0200);
    cpu.run_one_instruction().unwrap();
    assert_eq!(cpu.one_cycle(), Ok((true, 1)));
    assert_eq!(cpu.one_cycle(), Ok((false, 1)));
    // the next counted cycle is the NOP's first
    assert_eq!(cpu.one_cycle(), Ok((true, 1)));
    assert_eq!(cpu.pc(), 0x0205);
}

#[test]
fn decimal_sbc_adjusts_the_nibbles() {
    // SED; SEC; LDA #$42; SBC #$13 -> $29
    let mut cpu = cpu_with(&[0xf8, 0x38, 0xa9, 0x42, 0xe9, 0x13], 0x0200);
    for _ in 0..4 {
        cpu.run_one_instruction().unwrap();
    }
    assert_eq!(cpu.a, 0x29);
    assert!(cpu.p.c());
}

#[test]
fn bne_takes_two_three_or_four_cycles() {
    // Z set: falls through
    let mut cpu = cpu_with(&[0xa9, 0x00, 0xd0, 0x02], 0x0200);
    assert_eq!(cpu.run_one_instruction(), Ok(2));
    assert_eq!(cpu.run_one_instruction(), Ok(2));
    assert_eq!(cpu.pc(), 0x0204);
    // Z clear, same page
    let mut cpu = cpu_with(&[0xd0, 0x02], 0x0200);
    assert_eq!(cpu.run_one_instruction(), Ok(3));
    assert_eq!(cpu.pc(), 0x0204);
    // Z clear, forward to the next page
    let mut cpu = cpu_with(&[0xd0, 0x7f], 0x02f0);
    assert_eq!(cpu.run_one_instruction(), Ok(4));
    assert_eq!(cpu.pc(), 0x0371);
    // Z clear, backward to the previous page
    let mut cpu = cpu_with(&[0xd0, 0xfc], 0x0200);
    assert_eq!(cpu.run_one_instruction(), Ok(4));
    assert_eq!(cpu.pc(), 0x01fe);
}

#[test]
fn each_counted_tick_makes_one_access_and_the_others_none() {
    // LDA #$00; BNE +2 (not taken: its last two ticks do not count)
    let mut cpu = cpu_with(&[0xa9, 0x00, 0xd0, 0x02], 0x0200);
    assert_eq!(cpu.run_one_instruction(), Ok(2));
    let expected = [1, 1, 0, 0];
    for counted in expected {
        let before = cpu.memory.cycles.len();
        assert_eq!(cpu.tick(), Ok(counted));
        assert_eq!(cpu.memory.cycles.len(), before + counted as usize);
    }
    assert_eq!(cpu.pc(), 0x0204);
}

#[test]
fn adc_sets_overflow_when_the_signed_sum_leaves_the_byte() {
    // CLC; LDA #$50; ADC #$50 -> $A0, V set, C clear
    let mut cpu = cpu_with(&[0x18, 0xa9, 0x50, 0x69, 0x50], 0x0200);
    for _ in 0..3 {
        cpu.run_one_instruction().unwrap();
    }
    assert_eq!(cpu.a, 0xa0);
    assert!(cpu.p.v());
    assert!(!cpu.p.c());
    // CLC; LDA #$D0; ADC #$90 -> $60, V set, C set
    let mut cpu = cpu_with(&[0x18, 0xa9, 0xd0, 0x69, 0x90], 0x0200);
    for _ in 0..3 {
        cpu.run_one_instruction().unwrap();
    }
    assert_eq!(cpu.a, 0x60);
    assert!(cpu.p.v());
    assert!(cpu.p.c());
    // CLC; LDA #$50; ADC #$10 -> $60, neither
    let mut cpu = cpu_with(&[0x18, 0xa9, 0x50, 0x69, 0x10], 0x0200);
    for _ in 0..3 {
        cpu.run_one_instruction().unwrap();
    }
    assert_eq!(cpu.a, 0x60);
    assert!(!cpu.p.v());
    assert!(!cpu.p.c());
}
