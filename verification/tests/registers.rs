use nes::internal_registers::IR;
use nes::ppu_ctrl::PpuCtrl;
use nes::ppu_mask::PpuMask;

#[test]
fn binary_is_grouped_by_four_from_the_right() {
    assert_eq!(IR::format_binary_with_underscores(0), "0");
    assert_eq!(IR::format_binary_with_underscores(5), "101");
    assert_eq!(IR::format_binary_with_underscores(0b1_0000), "1_0000");
    assert_eq!(IR::format_binary_with_underscores(0x3fff), "11_1111_1111_1111");
    assert_eq!(IR::format_binary_with_underscores(0xffff), "1111_1111_1111_1111");
}

#[test]
fn internal_registers_print_their_fields() {
    let ir = IR { v: 0x0c23, t: 0x0400, x: 5, w: true };
    assert_eq!(
        ir.to_string(),
        "IR: v:0C23/1100_0010_0011 t:0400/100_0000_0000 w:true NT:3 coarse_x:3 fine_x:5 coarse_y:1 fine_y:0"
    );
}

#[test]
fn ppu_ctrl_prints_its_fields() {
    assert_eq!(
        PpuCtrl::new(0xa6).to_string(),
        "PPUCTRL: 01 vbl:true sprite_height:16 background_table:0000 sprite_table:0000 vram_increment:32 nametable:2800"
    );
    assert_eq!(
        PpuCtrl::new(0x58).to_string(),
        "PPUCTRL: 00 vbl:false sprite_height:8 background_table:1000 sprite_table:1000 vram_increment:1 nametable:2000"
    );
}

#[test]
fn ppu_mask_prints_its_fields() {
    assert_eq!(
        PpuMask::new(0x9a).to_string(),
        "b:true g:false r:false sprite:true background:true show_sprites:true show_bg:false greyscale:false"
    );
}
