use nes::apu::triangle::Triangle;
use nes::constants::RomInfo;
use nes::rom_filter::filtered_rom_indices;
use nes::apu::Apu;
use nes::joypad::{Button, Joypad};
use nes::memory::Memory;
use nes::nes_memory::NesMemory;

#[test]
fn test_strobe_mode_on_off() {
    let mut joypad = Joypad::new();

    joypad.write(0);
    joypad.set_button_status(Button::Right, true);
    joypad.set_button_status(Button::Left, true);
    joypad.set_button_status(Button::Select, true);
    joypad.set_button_status(Button::B, true);

    for _ in 0..=1 {
        assert_eq!(joypad.read(), 0);
        assert_eq!(joypad.read(), 1);
        assert_eq!(joypad.read(), 1);
        assert_eq!(joypad.read(), 0);
        assert_eq!(joypad.read(), 0);
        assert_eq!(joypad.read(), 0);
        assert_eq!(joypad.read(), 1);
        assert_eq!(joypad.read(), 1);

        for _x in 0..10 {
            assert_eq!(joypad.read(), 1);
        }
        joypad.write(1);
        joypad.write(0);
    }
}

#[test]
fn the_controller_port_reads_one_after_the_eighth_button() {
    let mut memory = NesMemory::new_for_testing();
    memory.joypad.set_button_status(Button::A, true);
    memory.set(0x4016, 1);
    memory.set(0x4016, 0);
    assert_eq!(memory.get(0x4016), 1);
    for _ in 0..7 {
        assert_eq!(memory.get(0x4016), 0);
    }
    assert_eq!(memory.get(0x4016), 1);
    assert_eq!(memory.get(0x4016), 1);
    memory.set(0x4016, 0);
    assert_eq!(memory.get(0x4016), 1);
    assert_eq!(memory.get(0x4016), 0);
}

#[test]
fn oamdata_reads_an_attribute_byte_without_its_unused_bits() {
    let mut memory = NesMemory::new_for_testing();
    memory.set(0x2003, 0x00);
    for _ in 0..4 {
        memory.set(0x2004, 0xff);
    }
    memory.set(0x2003, 0x02);
    assert_eq!(memory.get(0x2004), 0xe3);
    // reads do not move the OAM address
    assert_eq!(memory.get(0x2004), 0xe3);
    memory.set(0x2003, 0x01);
    assert_eq!(memory.get(0x2004), 0xff);
    memory.set(0x2003, 0x03);
    assert_eq!(memory.get(0x2004), 0xff);
}

#[test]
fn a_write_to_400b_sets_the_period_high_bits_and_reloads() {
    let mut triangle = Triangle::new();
    triangle.set_enabled(true);
    triangle.set(0x400a, 0x34);
    triangle.set(0x400b, 0x0a);
    assert_eq!(triangle.timer, 0x234);
    assert_eq!(triangle.length_counter, 254);
    assert!(triangle.linear_reload);
    assert_eq!(triangle.reg_timer_hi, 0x0a);
}

#[test]
fn a_disabled_triangle_keeps_its_length_counter_on_400b() {
    let mut triangle = Triangle::new();
    triangle.set(0x400b, 0xff);
    assert_eq!(triangle.timer, 0x700);
    assert_eq!(triangle.length_counter, 0);
    assert!(triangle.linear_reload);
}

#[test]
fn the_apu_clocks_the_triangle_every_cycle_and_the_pulses_every_other() {
    let mut apu = Apu::new();
    let mut memory = NesMemory::new_for_testing();
    apu.triangle.timer_counter = 5;
    apu.pulse1.timer_counter = 5;
    apu.step(&mut memory);
    assert_eq!(apu.cycle_count, 1);
    assert_eq!(apu.triangle.timer_counter, 4);
    assert_eq!(apu.pulse1.timer_counter, 5);
    assert_eq!(apu.frame_counter, 0);
    apu.step(&mut memory);
    assert_eq!(apu.cycle_count, 2);
    assert_eq!(apu.triangle.timer_counter, 3);
    assert_eq!(apu.pulse1.timer_counter, 4);
    assert_eq!(apu.frame_counter, 1);
}

#[test]
fn the_rom_filter_keeps_the_names_that_contain_it_ignoring_case() {
    let roms = vec![
        RomInfo::n(0, "roms/Super Mario Bros.nes"),
        RomInfo::n(1, "roms/Zelda.nes"),
        RomInfo::n(2, "MARIO 3.nes"),
        RomInfo::n(3, "test-rom/apu_test.nes"),
    ];
    assert_eq!(filtered_rom_indices(&roms, "mario"), vec![0, 2]);
    assert_eq!(filtered_rom_indices(&roms, "MaRiO"), vec![0, 2]);
    assert_eq!(filtered_rom_indices(&roms, ""), vec![0, 1, 2, 3]);
    assert_eq!(filtered_rom_indices(&roms, "o b"), vec![0]);
    assert_eq!(filtered_rom_indices(&roms, "apu test"), vec![3]);
    assert_eq!(filtered_rom_indices(&roms, "metroid"), Vec::<usize>::new());
}
