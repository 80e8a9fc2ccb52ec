use nes::bk2::{Bk2Movie, ControllerState as Bk2State};
use nes::fm2::{ControllerState as Fm2State, Fm2Movie};
use nes::rom::Rom;

#[test]
fn test_parse_rom_checksum_header() {
    let movie = Fm2Movie::parse("romChecksum   base64:bUqUw0RGPlYjRCSeGOm5nw==\n");
    assert_eq!(movie.rom_checksum(), Some("base64:bUqUw0RGPlYjRCSeGOm5nw=="));
}

#[test]
fn test_rom_checksum_matches_is_case_insensitive() {
    let movie = Fm2Movie::parse("romChecksum base64:BUQUW0RGPLYJRCSEGOM5NW==\n");
    let rom = Rom {
        checksum: "base64:bUqUw0RGPlYjRCSeGOm5nw==".to_string(),
        ..Rom::default()
    };

    assert_eq!(movie.rom_checksum_matches(&rom), Some(true));
}

#[test]
fn test_parse_input_log() {
    // Real format: |<2-char flags>|<8-char P1>|<8-char P2>|
    let log = "|..|UDLR.s.A|........|\n|..|........|........|\n";
    let frames = Bk2Movie::parse_input_log(log);
    assert_eq!(frames.len(), 2);
    // Frame 0: U D L R s(select) A pressed
    assert!(frames[0].up);
    assert!(frames[0].down);
    assert!(frames[0].left);
    assert!(frames[0].right);
    assert!(!frames[0].start); // position 4 = '.' → not pressed
    assert!(frames[0].select); // position 5 = 's'
    assert!(!frames[0].b);
    assert!(frames[0].a);
    // Frame 1: nothing pressed
    assert!(!frames[1].up);
    assert!(!frames[1].a);
}

#[test]
fn test_parse_headers() {
    let hdrs = "System NES\nSHA1 abc123\n";
    let map = Bk2Movie::parse_headers(hdrs);
    assert_eq!(map.get("System").map(|s| s.as_str()), Some("NES"));
    assert_eq!(map.get("SHA1").map(|s| s.as_str()), Some("abc123"));
}

#[test]
fn fm2_frames_are_read_in_order_and_handed_out_once() {
    let text = "version 3\r\npalFlag 1\n|0|R......A|........|\n|0|.L.U.S..|\n|0|\n|0|RLDUTSBA|\n";
    let mut movie = Fm2Movie::parse(text);
    let first = movie._next_state().unwrap();
    assert!(first.right && first.a && !first.left && !first.b);
    let second = movie._next_state().unwrap();
    assert!(second.left && second.up && second.select && !second.right && !second.start);
    // "|0|" still has a third field, an empty one
    let third = movie._next_state().unwrap();
    assert!(third._is_empty());
    let fourth = movie._next_state().unwrap();
    assert!(fourth.right && fourth.left && fourth.down && fourth.up);
    assert!(fourth.start && fourth.select && fourth.b && fourth.a);
    assert!(movie._next_state().is_none());
    assert!(movie._next_state().is_none());
}

#[test]
fn fm2_without_checksum_has_none() {
    let movie = Fm2Movie::parse("version 3\nromChecksum    \n");
    assert_eq!(movie.rom_checksum(), None);
    let rom = Rom::default();
    assert_eq!(movie.rom_checksum_matches(&rom), None);
}

#[test]
fn fm2_last_checksum_line_wins_and_mismatch_is_reported() {
    let movie = Fm2Movie::parse("romChecksum abc\nromChecksum\tdef \n");
    assert_eq!(movie.rom_checksum(), Some("def"));
    let rom = Rom { checksum: "DEG".to_string(), ..Rom::default() };
    assert_eq!(movie.rom_checksum_matches(&rom), Some(false));
    let rom = Rom { checksum: "DEF".to_string(), ..Rom::default() };
    assert_eq!(movie.rom_checksum_matches(&rom), Some(true));
}

#[test]
fn fm2_button_field_is_read_by_bytes() {
    // a two-byte character shifts the following letters one byte on
    let mut movie = Fm2Movie::parse("|0|éDUTSBA|\n");
    let s = movie._next_state().unwrap();
    assert!(!s.right && !s.left);
    assert!(s.down && s.up && s.start && s.select && s.b && s.a);
}

#[test]
fn fm2_state_text_lists_pressed_buttons() {
    let s = Fm2State { right: true, a: true, ..Fm2State::default() };
    assert_eq!(s.to_string(), "Right A ");
    assert_eq!(Fm2State::default().to_string(), "");
    assert!(Fm2State::default()._is_empty());
    assert!(!s._is_empty());
}

#[test]
fn bk2_state_text_lists_pressed_buttons() {
    let s = Bk2State { up: true, select: true, ..Bk2State::default() };
    assert_eq!(s.to_string(), "Us");
    assert_eq!(Bk2State::default().to_string(), ".");
    assert!(Bk2State::default().is_empty());
    assert!(!s.is_empty());
}

#[test]
fn bk2_headers_skip_comments_and_blank_lines_and_keep_the_last_value() {
    let hdrs = "; comment\n\n  MD5 0000beef  \nNoSpace\nMD5 12ab\nAuthor Some One\n";
    let map = Bk2Movie::parse_headers(hdrs);
    assert_eq!(map.get("MD5").map(|s| s.as_str()), Some("12ab"));
    assert_eq!(map.get("Author").map(|s| s.as_str()), Some("Some One"));
    assert_eq!(map.get("NoSpace"), None);
    assert_eq!(map.get("; comment"), None);
}

#[test]
fn bk2_movie_reports_checksum_and_hands_out_frames() {
    let mut movie = Bk2Movie::default();
    movie.header = Bk2Movie::parse_headers("System NES\nMD5 1F\n");
    movie.frames = Bk2Movie::parse_input_log("  |..|U.......|\nnot a frame\n|..\n|..|.......A|\n");
    assert_eq!(movie._system(), Some("NES"));
    assert_eq!(movie._rom_checksum(), Ok(0x1f));
    assert_eq!(movie._frame_count(), 2);
    let first = movie.next_state().unwrap();
    assert!(first.up && !first.a);
    let second = movie.next_state().unwrap();
    assert!(second.a && !second.up);
    assert!(movie.next_state().is_none());
}

#[test]
fn bk2_sha1_header_comes_before_md5_and_bad_hex_is_an_error() {
    let mut movie = Bk2Movie::default();
    movie.header = Bk2Movie::parse_headers("MD5 10\nSHA1 +ff\n");
    assert_eq!(movie._rom_checksum(), Ok(0xff));
    movie.header = Bk2Movie::parse_headers("SHA1 abc123xyz\n");
    assert!(movie._rom_checksum().is_err());
    movie.header = Bk2Movie::parse_headers("SHA1 123456789\n");
    assert!(movie._rom_checksum().is_err());
    movie.header = Bk2Movie::parse_headers("System NES\n");
    assert!(movie._rom_checksum().is_err());
}

fn bk2_archive(entries: &[(&str, &str)]) -> Vec<u8> {
    let mut writer = zip::ZipWriter::new(std::io::Cursor::new(Vec::new()));
    for (name, text) in entries {
        writer.start_file(*name, zip::write::SimpleFileOptions::default()).unwrap();
        std::io::Write::write_all(&mut writer, text.as_bytes()).unwrap();
    }
    writer.finish().unwrap().into_inner()
}

#[test]
fn a_bk2_archive_gives_its_headers_and_frames() {
    let archive = bk2_archive(&[
        ("Header.txt", "MovieVersion BizHawk v2.0\nPlatform NES\n"),
        ("Input Log.txt", "[Input]\n|..|........|\n|..|U...S..A|\n[/Input]\n"),
    ]);
    let mut movie = Bk2Movie::parse_archive(&archive).unwrap();
    assert_eq!(movie._get_header("Platform"), Some("NES"));
    assert_eq!(movie._frame_count(), 2);
    assert!(movie.next_state().unwrap().is_empty());
    let second = movie.next_state().unwrap();
    assert!(second.up && second.start && second.a && !second.b);
    assert!(movie.next_state().is_none());
}

#[test]
fn a_bk2_archive_without_a_log_has_no_frames() {
    let archive = bk2_archive(&[("Header.txt", "Platform NES\n")]);
    let movie = Bk2Movie::parse_archive(&archive).unwrap();
    assert_eq!(movie._frame_count(), 0);
    assert_eq!(movie._get_header("Platform"), Some("NES"));
}

#[test]
fn bytes_that_are_no_zip_archive_are_refused() {
    assert!(Bk2Movie::parse_archive(&b"not a zip".to_vec()).is_err());
}
