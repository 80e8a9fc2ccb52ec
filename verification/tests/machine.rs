use nes::emulator::{Emulator, TICK_BATCH_CYCLES};
use nes::joypad::Joypad;
use nes::mappers::mapper_base::supports;
use nes::rom::Rom;

/// An NROM image whose program enables NMIs and spins, with an NMI handler
/// that counts in $0201.
fn nrom_image() -> Vec<u8> {
    let mut image = vec![0x4e, 0x45, 0x53, 0x1a, 2, 1, 0, 0, 0, 0, 0, 0, 0, 0, 0, 0];
    let mut prg = vec![0xeau8; 0x8000];
    let program = [0xa9, 0x80, 0x8d, 0x00, 0x20, 0x4c, 0x05, 0x80];
    prg[..program.len()].copy_from_slice(&program);
    let handler = [0xee, 0x01, 0x02, 0x40];
    prg[0x10..0x14].copy_from_slice(&handler);
    prg[0x7ffa] = 0x10;
    prg[0x7ffb] = 0x80;
    prg[0x7ffc] = 0x00;
    prg[0x7ffd] = 0x80;
    prg[0x7ffe] = 0x00;
    prg[0x7fff] = 0x80;
    image.extend(prg);
    image.extend(vec![0u8; 0x2000]);
    image
}

fn machine(pc: Option<u16>) -> Emulator {
    let rom = Rom::read_nes_bytes(&nrom_image());
    assert!(supports(&rom));
    Emulator::new(&rom, Joypad::new(), pc)
}

#[test]
fn a_new_machine_starts_at_the_reset_vector() {
    let emulator = machine(None);
    assert_eq!(emulator.cpu.pc(), 0x8000);
    assert_eq!(emulator.cpu.s, 0xfd);
    assert!(!emulator.cpu.memory.init);
    let emulator = machine(Some(0xc000));
    assert_eq!(emulator.cpu.pc(), 0xc000);
}

#[test]
fn cycles_run_the_program() {
    let mut emulator = machine(None);
    let mut completed = 0;
    for _ in 0..20 {
        let (advanced, cycles, frame) = emulator.tick_one().unwrap();
        assert_eq!(cycles, 1);
        assert!(!frame);
        if advanced {
            completed += 1;
        }
    }
    assert!(completed >= 3);
    assert_eq!(emulator.cpu.memory.memory[0x2000], 0x80);
    assert_eq!(emulator.apu.cycle_count, 20);
}

#[test]
fn the_first_frame_completes_on_cycle_27281() {
    let mut emulator = machine(None);
    let mut total: u128 = 0;
    loop {
        let (cycles, frame) = emulator.tick().unwrap();
        assert!(cycles <= TICK_BATCH_CYCLES as u128);
        total += cycles;
        if frame {
            break;
        }
        assert_eq!(cycles, TICK_BATCH_CYCLES as u128);
    }
    assert_eq!(total, 27281);
}

#[test]
fn vertical_blank_raises_an_nmi_when_enabled() {
    let mut emulator = machine(None);
    for _ in 0..27430 {
        emulator.tick_one().unwrap();
    }
    assert_eq!(emulator.cpu.memory.memory[0x0201], 1);
}

#[test]
fn dump_lines_show_hex_and_text() {
    let values: Vec<u8> = (0x41..=0x50).collect();
    assert_eq!(
        Emulator::line(0x1234, &values),
        "1234: 41 42 43 44 45 46 47 48 49 4A 4B 4C 4D 4E 4F 50   ABCDEFGHIJKLMNOP\n"
    );
    assert_eq!(Emulator::displayable_character(0x41), "A");
    assert_eq!(Emulator::displayable_character(0x20), " ");
    assert_eq!(Emulator::displayable_character(0x7e), "~");
    assert_eq!(Emulator::displayable_character(0x7f), ".");
    assert_eq!(Emulator::displayable_character(0x0a), ".");
}

#[test]
fn the_dump_has_three_sections() {
    let mut emulator = machine(None);
    let text = emulator.dump();
    assert!(text.starts_with("\nCPU Memory\n==========\n0000: "));
    assert!(text.contains("\nPPU Memory\n==========\n0000: "));
    assert!(text.contains("\nOAM\n===\n0000: "));
    assert!(text.contains("8000: A9 80 8D 00 20 4C 05 80 EA EA EA EA EA EA EA EA   .... L..........\n"));
    assert_eq!(text.lines().count(), 3 * 3 + 4096 + 1024 + 16);
}
