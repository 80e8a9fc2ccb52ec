use nes::args::{select_rom, Args};
use nes::bk2::ControllerState;
use nes::constants::RomInfo;
use nes::emulator::{
    apply_movie_frame, pace, pause_title, run_title, vectors, Channel, Pace, Reaction, RunState,
    ToEmulatorMessage,
};
use nes::joypad::{Button, Joypad};
use nes::listview::{ListTheme, Message, ThemedListView};
use nes::pattern::Pattern;
use nes::rom_list::{mapper_number, roms_with_mappers};
use nes::rom::display_character;
use nes::sprite::{test_sprites, Sprite};

#[test]
fn rom_names_are_cleaned_up() {
    assert_eq!(RomInfo::n(0, "C:\\roms\\Super Mario Bros. (W) (V1.0) [!].nes").name(), "Super Mario Bros W V1 0");
    assert_eq!(RomInfo::n(0, "test-rom/apu_test.nes").name(), "apu test");
    assert_eq!(RomInfo::n(0, "Tetris.NES").name(), "Tetris NES");
    assert_eq!(RomInfo::n(0, "dir/").name(), "");
}

#[test]
fn mapper_number_reads_the_header_nibbles() {
    let header = [b'N', b'E', b'S', 0x1a, 2, 1, 0x40, 0x10];
    assert_eq!(mapper_number(&header), 0x14);
    assert_eq!(mapper_number(&header[..7]), 0);
    assert_eq!(mapper_number(&[]), 0);
    assert_eq!(RomInfo::n(0, "x.nes").mapper_number(&header), 0x14);
}

#[test]
fn roms_are_kept_by_mapper_and_numbered_from_100() {
    let found = vec![("a.nes".to_string(), 0), ("b.nes".to_string(), 5), ("c.nes".to_string(), 4)];
    let roms = roms_with_mappers(found, &vec![0, 4]);
    assert_eq!(roms.len(), 2);
    assert_eq!((roms[0].file_name.as_str(), roms[0].id), ("a.nes", 100));
    assert_eq!((roms[1].file_name.as_str(), roms[1].id), ("c.nes", 101));
}

#[test]
fn select_rom_prefers_the_named_file_then_the_number() {
    let roms = vec![RomInfo::n(3, "three.nes"), RomInfo::n(18, "eighteen.nes"), RomInfo::n(7, "seven.nes")];
    let mut args = Args::default();
    let r = select_rom(&mut args, &roms);
    assert_eq!((r.file_name.as_str(), r.id), ("eighteen.nes", 18));
    assert_eq!(args.rom_names, vec!["eighteen.nes".to_string()]);

    let mut args = Args { rom_number: Some(7), ..Args::default() };
    assert_eq!(select_rom(&mut args, &roms).file_name, "seven.nes");

    let mut args = Args { rom_number: Some(99), ..Args::default() };
    assert_eq!(select_rom(&mut args, &roms).file_name, "three.nes");

    let mut args = Args { rom: Some("mine.nes".to_string()), ..Args::default() };
    let r = select_rom(&mut args, &roms);
    assert_eq!((r.file_name.as_str(), r.id), ("mine.nes", 0));
}

#[test]
fn cloned_args_drop_the_rom_and_the_modes() {
    let args = Args {
        rom: Some("x.nes".to_string()),
        rom_dir: Some("roms".to_string()),
        rom_names: vec!["a".to_string()],
        rom_number: Some(3),
        demo: true,
        dev: true,
        pc: Some("C000".to_string()),
        fm2: None,
        bk2: Some("m.bk2".to_string()),
    };
    let c = args.clone();
    assert!(c.rom.is_none() && c.rom_number.is_none() && !c.demo && !c.dev);
    assert_eq!(c.rom_dir, args.rom_dir);
    assert_eq!(c.rom_names, args.rom_names);
    assert_eq!(c.pc, args.pc);
    assert_eq!(c.bk2, args.bk2);
}

#[test]
fn pattern_text_and_emptiness() {
    let mut bytes = [0u8; 64];
    assert!(Pattern::new(bytes).is_empty());
    bytes[9] = 2;
    let p = Pattern::new(bytes);
    assert!(!p.is_empty());
    assert_eq!(p.index(9), 2);
    let text = p.to_text();
    let lines: Vec<&str> = text.lines().collect();
    assert_eq!(lines.len(), 8);
    assert_eq!(lines[0], "........");
    assert_eq!(lines[1], ".#......");
}

#[test]
fn sprite_pixels_follow_the_flips() {
    test_sprites();
    let bytes = vec![0x40, 0, 0, 0, 0, 0, 0, 0x01, 0x40, 0, 0, 0, 0, 0, 0, 0];
    let s = Sprite::new(&[0, 0, 0, 0], &bytes);
    assert_eq!(s.color_index(1, 0), 3);
    assert_eq!(s.color_index(7, 7), 1);
    let flipped = Sprite::new(&[0, 0, 0xc0, 0], &bytes);
    assert_eq!(flipped.color_index(6, 7), 3);
    assert_eq!(flipped.color_index(0, 0), 1);
}

#[test]
fn list_view_updates_selection_and_theme() {
    let mut v = ThemedListView::new();
    assert_eq!(v.items.len(), 5);
    assert_eq!(v.title(), "Themed ListView Examples");
    v.update(Message::ItemClicked(3));
    assert_eq!(v.selected_item_id, Some(3));
    v.update(Message::SetTheme(ListTheme::Gaming));
    assert_eq!(v.current_theme, ListTheme::Gaming);
    assert_eq!(v.selected_item_id, Some(3));
}

#[test]
fn titles_name_the_rom_and_the_cycle() {
    let rom = String::from("Zelda");
    assert_eq!(pause_title(0, &rom), "CedNES - Paused - Cycle 0 - Zelda");
    assert_eq!(pause_title(1234567, &rom), "CedNES - Paused - Cycle 1234567 - Zelda");
    assert_eq!(run_title(&rom), "CedNES - Zelda");
}

#[test]
fn pause_requests_change_state_only_when_they_differ() {
    let rom = String::from("Tetris");
    let mut state = RunState::new();
    assert!(matches!(state.on_message(ToEmulatorMessage::Pause(false), 10, &rom), Reaction::Nothing));
    assert!(!state.paused);
    match state.on_message(ToEmulatorMessage::Pause(true), 42, &rom) {
        Reaction::PauseChanged { title, paused_cycles } => {
            assert_eq!(title, "CedNES - Paused - Cycle 42 - Tetris");
            assert_eq!(paused_cycles, Some(42));
        }
        _ => panic!("expected a pause change"),
    }
    assert!(state.paused);
    assert!(matches!(state.on_message(ToEmulatorMessage::Pause(true), 50, &rom), Reaction::Nothing));
    match state.on_message(ToEmulatorMessage::Pause(false), 60, &rom) {
        Reaction::PauseChanged { title, paused_cycles } => {
            assert_eq!(title, "CedNES - Tetris");
            assert_eq!(paused_cycles, None);
        }
        _ => panic!("expected a pause change"),
    }
    assert!(!state.paused);
}

#[test]
fn reboot_stops_the_run_and_unpauses() {
    let rom = String::from("Tetris");
    let mut state = RunState::new();
    let _ = state.on_message(ToEmulatorMessage::Pause(true), 1, &rom);
    match state.on_message(ToEmulatorMessage::Reboot(RomInfo::n(7, "roms/mario.nes")), 2, &rom) {
        Reaction::Reboot(info) => {
            assert_eq!(info.id, 7);
            assert_eq!(info.file_name, "roms/mario.nes");
        }
        _ => panic!("expected a reboot"),
    }
    assert!(state.reboot);
    assert!(!state.paused);
}

#[test]
fn sound_and_debug_requests_pass_through() {
    let rom = String::new();
    let mut state = RunState::new();
    assert!(matches!(
        state.on_message(ToEmulatorMessage::SoundTriangle(false), 0, &rom),
        Reaction::Sound(Channel::Triangle, false)
    ));
    assert!(matches!(state.on_message(ToEmulatorMessage::SoundAll(true), 0, &rom), Reaction::Sound(Channel::All, true)));
    assert!(matches!(state.on_message(ToEmulatorMessage::_Debug, 0, &rom), Reaction::Debug));
    assert!(matches!(state.on_message(ToEmulatorMessage::_SaveState, 0, &rom), Reaction::Nothing));
    assert!(!state.paused && !state.reboot);
}

#[test]
fn pacing_keeps_two_frames_per_window() {
    assert_eq!(pace(0, 100, true), Pace::Run);
    assert_eq!(pace(1, 0, true), Pace::Run);
    assert_eq!(pace(2, 33, true), Pace::Drain(2));
    assert_eq!(pace(5, 40, false), Pace::Drain(2));
    assert_eq!(pace(2, 10, true), Pace::Sleep);
    assert_eq!(pace(2, 32, true), Pace::Yield);
    assert_eq!(pace(2, 10, false), Pace::Run);
}

#[test]
fn movie_frames_press_and_release_every_button() {
    let mut joypad = Joypad::new();
    joypad.set_button_status(Button::Select, true);
    joypad.set_button_status(Button::Left, true);
    let frame = ControllerState { right: true, left: false, down: false, up: true, start: false, select: false, b: false, a: true };
    apply_movie_frame(&mut joypad, &frame);
    assert_eq!(joypad.read_status(), 0x80 | 0x10 | 0x01);
    apply_movie_frame(&mut joypad, &ControllerState::default());
    assert_eq!(joypad.read_status(), 0);
}

#[test]
fn vectors_come_from_the_last_six_bytes() {
    let mut prg = vec![0u8; 16];
    prg[10..16].copy_from_slice(&[0x34, 0x12, 0x00, 0xc0, 0xcd, 0xab]);
    assert_eq!(vectors(&prg), (0xabcd, 0xc000, 0x1234));
}

#[test]
fn sprite_dump_shows_the_flipped_corner() {
    let bytes = vec![0x80, 0, 0, 0, 0, 0, 0, 0, 0x80, 0, 0, 0, 0, 0, 0, 0];
    let sprite = Sprite::new(&[0x70, 4, 0b1100_0000, 0x79], &bytes);
    let mut expected = String::new();
    for _ in 0..7 {
        expected.push_str("........\n");
    }
    expected.push_str(".......3\n\n");
    assert_eq!(sprite.display(), expected);
}

#[test]
fn tile_dump_marks_set_pixels() {
    let mut table = vec![0u8; 64];
    table[0] = 1;
    table[9] = 7;
    table[63] = 255;
    let text = display_character(&table);
    let rows: Vec<&str> = text.lines().collect();
    assert_eq!(rows.len(), 8);
    assert_eq!(rows[0], "*.......");
    assert_eq!(rows[1], ".*......");
    assert_eq!(rows[7], ".......*");
    assert!(text.ends_with("\n"));
}
