use nes::mappers::mapper_config::MapperConfig;
use nes::mappers::mapper_mmc1::MapperMMC1;
use nes::rom::{Rom, PRG_ROM_SIZE};

fn make_test_mapper(prg_16k_banks: usize) -> MapperMMC1 {
    let mut rom = Rom::default();
    rom.prg_rom = vec![0; PRG_ROM_SIZE * prg_16k_banks];
    for bank in 0..prg_16k_banks {
        let marker = 0xA0 + bank as u8;
        let start = bank * PRG_ROM_SIZE;
        for i in start..start + PRG_ROM_SIZE {
            rom.prg_rom[i] = marker;
        }
    }
    let mut config = MapperConfig::new(&rom);
    MapperMMC1::new(&rom, &mut config)
}

#[test]
fn mmc1_mode2_maps_fixed_lower_and_switchable_upper() {
    let mut mapper = make_test_mapper(4);
    mapper.control = 0b01000;
    mapper.prg_bank = 2;

    assert_eq!(mapper.read_prg(0x8000), 0xA0);
    assert_eq!(mapper.read_prg(0xC000), 0xA2);
}

#[test]
fn mmc1_mode3_maps_switchable_lower_and_fixed_last_upper() {
    let mut mapper = make_test_mapper(4);
    mapper.control = 0b01100;
    mapper.prg_bank = 1;

    assert_eq!(mapper.read_prg(0x8000), 0xA1);
    assert_eq!(mapper.read_prg(0xC000), 0xA3);
}

#[test]
fn mmc1_mode0_uses_two_consecutive_16k_banks() {
    let mut mapper = make_test_mapper(4);
    mapper.control = 0b00000;
    mapper.prg_bank = 3; // low bit ignored => banks 2 and 3

    assert_eq!(mapper.read_prg(0x8000), 0xA2);
    assert_eq!(mapper.read_prg(0xC000), 0xA3);
}

#[test]
fn mmc1_successful_latch_does_not_force_mode3() {
    let mut mapper = make_test_mapper(4);
    let mut config = MapperConfig::new(&Rom::default());

    for &bit in &[0u8, 0, 0, 1, 0] {
        mapper.write_prg(0x8000, bit, &mut config);
    }
    assert_eq!((mapper.control >> 2) & 0b11, 2);

    for _ in 0..5 {
        mapper.write_prg(0xE000, 0, &mut config);
    }
    assert_eq!((mapper.control >> 2) & 0b11, 2);
}

#[test]
fn mmc1_reset_write_forces_prg_mode_to_3() {
    let mut mapper = make_test_mapper(2);
    mapper.control = 0;
    let mut config = MapperConfig::new(&Rom::default());
    mapper.write_prg(0x8000, 0x80, &mut config);
    assert_eq!((mapper.control >> 2) & 0b11, 3);
    assert_eq!(mapper.shift_reg, 0x10);
    assert_eq!(mapper.shift_count, 0);
}
