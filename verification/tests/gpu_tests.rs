use gb_emu::convention::Term;
use gb_emu::frame::{white_frame, FRAME_BYTES};
use gb_emu::gpu::{Attr, GPUMode, GrayShades, PaletteData, BGPI, GPU, LCDC, LCDS};
use gb_emu::intf::Intf;
use gb_emu::memory::Memory;
use gb_emu::render::{
    _cal_color_num, _is_draw_sprite, _oam_data, _tile_addr, _tile_location, bs_insert_at,
    draw_line, CGBRender, GBRender,
};

fn pixel(gpu: &GPU, x: usize, y: usize) -> (u8, u8, u8) {
    let k = (y * 160 + x) * 3;
    (gpu.data[k], gpu.data[k + 1], gpu.data[k + 2])
}

fn lcd_on(term: Term) -> (GPU, Intf) {
    let mut gpu = GPU::power_up(term);
    gpu.set(0xff40, 0x91);
    (gpu, Intf::power_up())
}

#[test]
fn bs_insert_at_puts_equal_values_behind() {
    assert_eq!(bs_insert_at(&vec![], 7), 0);
    assert_eq!(bs_insert_at(&vec![7], 7), 1);
    assert_eq!(bs_insert_at(&vec![7], 6), 0);
    assert_eq!(bs_insert_at(&vec![7], 8), 1);
    assert_eq!(bs_insert_at(&vec![1, 5, 5, 5, 9], 5), 4);
    assert_eq!(bs_insert_at(&vec![1, 5, 5, 5, 9], 4), 1);
    assert_eq!(bs_insert_at(&vec![0, 255], 255), 2);
    assert_eq!(bs_insert_at(&vec![0, 255], 0), 1);
}

#[test]
fn power_up_state() {
    let gpu = GPU::power_up(Term::GB);
    assert_eq!(gpu.get(0xff40), 0b0100_1000);
    assert_eq!(gpu.get(0xff41), 0);
    assert_eq!(gpu.get(0xff44), 0);
    assert_eq!(gpu.get(0xff4f), 0xfe);
    assert!(gpu.data.iter().all(|b| *b == 0xff));
    assert_eq!(gpu.data.len(), FRAME_BYTES);
    assert!(white_frame().iter().all(|b| *b == 0xff));
    assert!(!gpu.v_blank);
    assert!(!gpu.is_cgb_mode());
    assert!(GPU::power_up(Term::GBC).is_cgb_mode());
    assert_eq!(LCDC::power_up().data, 0x48);
    assert_eq!(LCDS::power_up().get(), 0);
    assert_eq!(BGPI::power_up().get(), 0);
    assert_eq!(PaletteData::power_up().get(63), 0);
}

#[test]
fn registers_read_back() {
    let mut gpu = GPU::power_up(Term::GBC);
    for (a, v) in [(0xff42u16, 0x12u8), (0xff43, 0x34), (0xff45, 0x56), (0xff47, 0x78), (0xff48, 0x9a), (0xff49, 0xbc), (0xff4a, 0xde), (0xff4b, 0xf0)] {
        gpu.set(a, v);
        assert_eq!(gpu.get(a), v);
    }
    gpu.set(0xff44, 0x55);
    assert_eq!(gpu.get(0xff44), 0);
    gpu.set(0xff41, 0xff);
    assert_eq!(gpu.get(0xff41), 0x78);
    gpu.set(0xff41, 0x28);
    assert_eq!(gpu.get(0xff41), 0x28);
    gpu.set(0xff4f, 0xff);
    assert_eq!(gpu.get(0xff4f), 0xff);
    gpu.set(0xff4f, 0xfe);
    assert_eq!(gpu.get(0xff4f), 0xfe);
    assert_eq!(gpu.get(0xff46), 0);
    assert_eq!(gpu.get(0x0000), 0);
}

#[test]
fn lcd_control_bits() {
    let all = LCDC { data: 0xff };
    assert!(all.lcd_enable() && all.win_tm_sel() && all.window_enable() && all.td_sel());
    assert!(all.bg_tm_sel() && all.obj_h_16() && all.obj_enable() && all.bg_win_pri());
    let l = LCDC { data: 0b1010_0101 };
    assert!(l.lcd_enable());
    assert!(!l.win_tm_sel());
    assert!(l.window_enable());
    assert!(!l.td_sel());
    assert!(!l.bg_tm_sel());
    assert!(l.obj_h_16());
    assert!(!l.obj_enable());
    assert!(l.bg_win_pri());
    assert_eq!(GPUMode::Tran2Driver.code(), 3);
    assert_eq!(GrayShades::Light.value(), 0xc0);
    assert_eq!(GrayShades::Dark.value(), 0x60);
}

#[test]
fn video_ram_banks() {
    let mut gpu = GPU::power_up(Term::GBC);
    gpu.set(0x8000, 0x11);
    gpu.set(0x9fff, 0x22);
    gpu.set(0xff4f, 0x01);
    assert_eq!(gpu.get(0x8000), 0x00);
    gpu.set(0x8000, 0x33);
    assert_eq!(gpu.get(0x8000), 0x33);
    assert_eq!(gpu.get_ram0(0x8000), 0x11);
    assert_eq!(gpu.get_ram1(0x8000), 0x33);
    assert_eq!(gpu.get_vram(0x8000), 0x33);
    gpu.set(0xff4f, 0x00);
    assert_eq!(gpu.get(0x8000), 0x11);
    assert_eq!(gpu.get(0x9fff), 0x22);
    assert_eq!(gpu.ram[0x1fff], 0x22);
    assert_eq!(gpu.ram[0x2000], 0x33);
    gpu.set_vram(0x8001, 0x44);
    assert_eq!(gpu.ram[1], 0x44);
    assert_eq!(gpu.get_ram0(0x7fff), 0);
    assert_eq!(gpu.get_ram1(0xa000), 0);
}

#[test]
fn palette_index_auto_increment() {
    let mut i = BGPI::power_up();
    i.set(0xbe);
    assert_eq!(i.get(), 0xbe);
    i.increase();
    assert_eq!(i.get(), 0xbf);
    i.increase();
    assert_eq!(i.get(), 0x80);
    i.set(0x3f);
    i.increase();
    assert_eq!(i.get(), 0x3f);
    i.set(0x7f);
    assert_eq!(i.get(), 0x3f);
}

#[test]
fn palette_round_trip() {
    let mut gpu = GPU::power_up(Term::GBC);
    let bytes: Vec<u8> = (0..64u32).map(|k| ((k * 37 + 11) % 256) as u8).collect();
    gpu.set(0xff68, 0x80);
    for b in &bytes {
        gpu.set(0xff69, *b);
    }
    assert_eq!(gpu.get(0xff68), 0x80);
    for k in 0..64u8 {
        gpu.set(0xff68, k);
        let expect = if k % 2 == 1 { bytes[k as usize] & 0x7f } else { bytes[k as usize] };
        assert_eq!(gpu.get(0xff69), expect);
    }
    // the sprite palette is a memory of its own
    gpu.set(0xff6a, 0x82);
    gpu.set(0xff6b, 0xff);
    gpu.set(0xff6b, 0xff);
    gpu.set(0xff6a, 0x02);
    assert_eq!(gpu.get(0xff6b), 0xff);
    gpu.set(0xff6a, 0x03);
    assert_eq!(gpu.get(0xff6b), 0x7f);
    gpu.set(0xff68, 0x02);
    assert_eq!(gpu.get(0xff69), bytes[2]);
    // without auto-increment the index stays
    gpu.set(0xff68, 0x05);
    gpu.set(0xff69, 0x21);
    assert_eq!(gpu.get(0xff68), 0x05);
    assert_eq!(gpu.get(0xff69), 0x21);
}

#[test]
fn palette_colours_are_split_over_two_bytes() {
    let mut p = PaletteData::power_up();
    // red 0x15, green 0x0b, blue 0x1e: 0 11110 01011 10101
    let word: u16 = (0x1e << 10) | (0x0b << 5) | 0x15;
    p.set(10, (word & 0xff) as u8);
    p.set(11, (word >> 8) as u8);
    assert_eq!(p.color(1, 1), (0x15, 0x0b, 0x1e));
    assert_eq!(p.get(10), 0x75);
    assert_eq!(p.get(11), 0x79);
    p.set(75, 0xff);
    assert_eq!(p.get(11), 0x7f);
    assert_eq!(p.color(1, 1), (0x15, 0x1b, 0x1f));
    assert_eq!(p.color(0, 0), (0, 0, 0));
}

#[test]
fn attributes() {
    let a = Attr::from(0b1010_1101);
    assert_eq!(a.cbg_pal_num, 5);
    assert!(a.bank);
    assert_eq!(a.pal_num, 0);
    assert!(a.flip_x);
    assert!(!a.flip_y);
    assert!(a.bw_over_obj);
    let b = Attr::from(0b0101_0010);
    assert_eq!(b.cbg_pal_num, 2);
    assert!(!b.bank);
    assert_eq!(b.pal_num, 1);
    assert!(!b.flip_x);
    assert!(b.flip_y);
    assert!(!b.bw_over_obj);
}

#[test]
fn ly_goes_through_a_frame_and_vblank_is_raised_once() {
    let (mut gpu, mut intf) = lcd_on(Term::GB);
    let mut seen = [false; 154];
    let mut raised = 0;
    for _ in 0..70224 {
        gpu.next(1, &mut intf);
        seen[gpu.get(0xff44) as usize] = true;
        if intf.data & 0x01 != 0 {
            raised += 1;
            intf.data = 0;
        }
    }
    assert!(seen.iter().all(|s| *s));
    assert_eq!(raised, 1);
    assert_eq!(gpu.get(0xff44), 0);
    assert_eq!(gpu.dots, 0);
    assert!(gpu.v_blank);
}

#[test]
fn stepping_in_chunks_is_stepping_dot_by_dot() {
    let (mut a, mut ia) = lcd_on(Term::GB);
    let (mut b, mut ib) = lcd_on(Term::GB);
    a.set(0xff41, 0x78);
    b.set(0xff41, 0x78);
    let mut total = 0u32;
    for (k, chunk) in [4u32, 80, 160, 12, 456, 1000, 7, 20000, 3].iter().enumerate() {
        a.next(*chunk, &mut ia);
        total += chunk;
        for _ in 0..*chunk {
            b.next(1, &mut ib);
        }
        assert_eq!(a.dots, total % 456, "chunk {}", k);
        assert_eq!(a.ly as u32, (total / 456) % 154);
        assert_eq!((a.dots, a.ly, a.get(0xff41)), (b.dots, b.ly, b.get(0xff41)));
        assert_eq!(ia.data, ib.data);
        assert_eq!(a.v_blank, b.v_blank);
    }
}

#[test]
fn modes_follow_the_dots() {
    let (mut gpu, mut intf) = lcd_on(Term::GB);
    gpu.next(1, &mut intf);
    assert_eq!(gpu.get(0xff41) & 3, 2);
    gpu.next(78, &mut intf);
    assert_eq!(gpu.dots, 79);
    assert_eq!(gpu.get(0xff41) & 3, 2);
    gpu.next(1, &mut intf);
    assert_eq!(gpu.get(0xff41) & 3, 3);
    gpu.next(171, &mut intf);
    assert_eq!(gpu.dots, 251);
    assert_eq!(gpu.get(0xff41) & 3, 3);
    assert!(!gpu.h_blank);
    gpu.next(1, &mut intf);
    assert_eq!(gpu.get(0xff41) & 3, 0);
    assert!(gpu.h_blank);
    gpu.next(203, &mut intf);
    assert_eq!(gpu.dots, 455);
    assert_eq!(gpu.get(0xff41) & 3, 0);
    assert!(!gpu.h_blank);
    gpu.next(1, &mut intf);
    assert_eq!((gpu.dots, gpu.ly), (0, 1));
    assert_eq!(gpu.get(0xff41) & 3, 2);
    gpu.next(456 * 143, &mut intf);
    assert_eq!(gpu.ly, 144);
    assert_eq!(gpu.get(0xff41) & 3, 1);
    gpu.next(456 * 9 + 455, &mut intf);
    assert_eq!(gpu.ly, 153);
    assert_eq!(gpu.get(0xff41) & 3, 1);
    gpu.next(1, &mut intf);
    assert_eq!(gpu.ly, 0);
    assert_eq!(gpu.get(0xff41) & 3, 2);
    assert_eq!(intf.data, 0x01);
}

#[test]
fn stat_interrupt_sources() {
    // h-blank source
    let (mut gpu, mut intf) = lcd_on(Term::GB);
    gpu.set(0xff41, 0x08);
    gpu.next(251, &mut intf);
    assert_eq!(intf.data, 0);
    gpu.next(1, &mut intf);
    assert_eq!(intf.data, 0x02);
    // OAM source
    let (mut gpu, mut intf) = lcd_on(Term::GB);
    gpu.set(0xff41, 0x20);
    gpu.next(1, &mut intf);
    assert_eq!(intf.data, 0x02);
    intf.data = 0;
    gpu.next(455, &mut intf);
    assert_eq!(intf.data, 0x02);
    // LYC source
    let (mut gpu, mut intf) = lcd_on(Term::GB);
    gpu.set(0xff41, 0x40);
    gpu.set(0xff45, 2);
    gpu.next(456 * 2 - 1, &mut intf);
    assert_eq!(intf.data, 0);
    gpu.next(1, &mut intf);
    assert_eq!(intf.data, 0x02);
    // v-blank source
    let (mut gpu, mut intf) = lcd_on(Term::GB);
    gpu.set(0xff41, 0x10);
    gpu.next(456 * 144 - 1, &mut intf);
    assert_eq!(intf.data, 0);
    gpu.next(1, &mut intf);
    assert_eq!(intf.data, 0x03);
}

#[test]
fn switching_the_display_off_resets_the_pipeline() {
    let (mut gpu, mut intf) = lcd_on(Term::GB);
    gpu.next(456 * 10 + 300, &mut intf);
    gpu.data[0] = 0x12;
    gpu.v_blank = false;
    gpu.set(0xff40, 0x11);
    assert_eq!((gpu.dots, gpu.ly, gpu.get(0xff41) & 3), (0, 0, 0));
    assert!(gpu.v_blank);
    assert!(gpu.data.iter().all(|b| *b == 0xff));
    gpu.next(10_000, &mut intf);
    assert_eq!((gpu.dots, gpu.ly), (0, 0));
    gpu.reset();
    assert_eq!(gpu.ly, 0);
}

/// Tile 1: every pixel colour 3. Tile 2: colour 1 in the left half, colour
/// 2 in the right half. Tile 3: first row 0,1,2,3,0,1,2,3.
fn load_tiles(gpu: &mut GPU) {
    for r in 0..8u16 {
        gpu.set(0x8010 + r * 2, 0xff);
        gpu.set(0x8011 + r * 2, 0xff);
        gpu.set(0x8020 + r * 2, 0xf0);
        gpu.set(0x8021 + r * 2, 0x0f);
    }
    gpu.set(0x8030, 0b0101_0101);
    gpu.set(0x8031, 0b0011_0011);
}

#[test]
fn tile_helpers() {
    let mut gpu = GPU::power_up(Term::GB);
    load_tiles(&mut gpu);
    assert_eq!(_cal_color_num(0, 0x80, 0x00), 1);
    assert_eq!(_cal_color_num(0, 0x00, 0x80), 2);
    assert_eq!(_cal_color_num(7, 0x01, 0x01), 3);
    assert_eq!(_cal_color_num(3, 0xef, 0xef), 0);
    gpu.set(0xff40, 0x91);
    gpu.set(0xff42, 10);
    gpu.set(0xff43, 250);
    gpu.ly = 5;
    assert_eq!(_tile_location(&gpu, 0), (2, 7, 0x9800 + 32 + 31));
    assert_eq!(_tile_location(&gpu, 6), (0, 7, 0x9800 + 32));
    gpu.set(0x9800, 0x80);
    assert_eq!(_tile_addr(&gpu, 0x9800), 0x8800);
    gpu.set(0xff40, 0x81);
    assert_eq!(_tile_addr(&gpu, 0x9800), 0x8800);
    gpu.set(0x9800, 0x7f);
    assert_eq!(_tile_addr(&gpu, 0x9800), 0x97f0);
    gpu.set(0x9800, 0x00);
    assert_eq!(_tile_addr(&gpu, 0x9800), 0x9000);
    // the window
    gpu.set(0xff40, 0xf1);
    gpu.set(0xff4a, 3);
    gpu.set(0xff4b, 7 + 16);
    assert_eq!(_tile_location(&gpu, 16), (0, 2, 0x9c00));
    assert_eq!(_tile_location(&gpu, 15), (1, 7, 0x9800 + 32 + 1));
    assert_eq!(_tile_location(&gpu, 159), (7, 2, 0x9c00 + 17));
}

#[test]
fn monochrome_background_line() {
    let mut gpu = GPU::power_up(Term::GB);
    load_tiles(&mut gpu);
    gpu.set(0xff40, 0x91);
    gpu.set(0xff47, 0b1110_0100);
    gpu.set(0x9800, 1);
    gpu.set(0x9801, 2);
    gpu.set(0x9802, 3);
    gpu.ly = 0;
    draw_line(&mut gpu);
    for x in 0..8 {
        assert_eq!(pixel(&gpu, x, 0), (0x00, 0x00, 0x00));
    }
    for x in 8..12 {
        assert_eq!(pixel(&gpu, x, 0), (0xc0, 0xc0, 0xc0));
    }
    for x in 12..16 {
        assert_eq!(pixel(&gpu, x, 0), (0x60, 0x60, 0x60));
    }
    let row: Vec<u8> = (16..24).map(|x| pixel(&gpu, x, 0).0).collect();
    assert_eq!(row, vec![0xff, 0xc0, 0x60, 0x00, 0xff, 0xc0, 0x60, 0x00]);
    assert_eq!(pixel(&gpu, 24, 0), (0xff, 0xff, 0xff));
    // other lines are untouched
    assert_eq!(pixel(&gpu, 0, 1), (0xff, 0xff, 0xff));
    // scrolled by 4 pixels
    gpu.set(0xff43, 4);
    gpu.ly = 1;
    gpu.dots = 0;
    draw_line(&mut gpu);
    assert_eq!(pixel(&gpu, 3, 1), (0, 0, 0));
    assert_eq!(pixel(&gpu, 4, 1), (0xc0, 0xc0, 0xc0));
    assert_eq!(pixel(&gpu, 8, 1), (0x60, 0x60, 0x60));
    // lines 144 and up are not drawn
    gpu.ly = 144;
    let before = gpu.data.to_vec();
    draw_line(&mut gpu);
    assert_eq!(gpu.data.to_vec(), before);
}

#[test]
fn monochrome_background_can_be_switched_off() {
    let mut gpu = GPU::power_up(Term::GB);
    load_tiles(&mut gpu);
    gpu.set(0xff40, 0x90);
    gpu.set(0xff47, 0b1110_0100);
    gpu.set(0x9800, 1);
    gpu.data[0] = 0x12;
    gpu.ly = 0;
    draw_line(&mut gpu);
    assert_eq!(gpu.data[0], 0x12);
    assert_eq!(pixel(&gpu, 1, 0), (0xff, 0xff, 0xff));
}

fn put_sprite(gpu: &mut GPU, i: u16, y: u8, x: u8, tile: u8, attr: u8) {
    gpu.set(0xfe00 + i * 4, y);
    gpu.set(0xfe01 + i * 4, x);
    gpu.set(0xfe02 + i * 4, tile);
    gpu.set(0xfe03 + i * 4, attr);
}

#[test]
fn sprite_table_and_visibility() {
    let mut gpu = GPU::power_up(Term::GB);
    gpu.set(0xff40, 0x93);
    put_sprite(&mut gpu, 5, 20, 12, 0x07, 0x90);
    let s = _oam_data(&gpu, 5);
    assert_eq!((s.sy, s.sx, s.t_num), (4, 4, 7));
    assert_eq!(s.attr.pal_num, 1);
    assert!(s.attr.bw_over_obj);
    for (ly, seen) in [(3u8, false), (4, true), (11, true), (12, false)] {
        gpu.ly = ly;
        assert_eq!(_is_draw_sprite(&gpu, &s, 8), seen);
    }
    gpu.set(0xff40, 0x97);
    let s = _oam_data(&gpu, 5);
    assert_eq!(s.t_num, 6);
    gpu.ly = 19;
    assert!(_is_draw_sprite(&gpu, &s, 16));
    gpu.ly = 20;
    assert!(!_is_draw_sprite(&gpu, &s, 16));
    // partly above the screen
    put_sprite(&mut gpu, 6, 10, 4, 0, 0);
    let s = _oam_data(&gpu, 6);
    assert_eq!((s.sy, s.sx), (250, 252));
    gpu.ly = 9;
    assert!(_is_draw_sprite(&gpu, &s, 16));
    gpu.ly = 10;
    assert!(!_is_draw_sprite(&gpu, &s, 16));
    // off the screen to the right
    put_sprite(&mut gpu, 7, 16, 168, 0, 0);
    let s = _oam_data(&gpu, 7);
    gpu.ly = 0;
    assert!(!_is_draw_sprite(&gpu, &s, 16));
}

#[test]
fn monochrome_sprites() {
    let mut gpu = GPU::power_up(Term::GB);
    load_tiles(&mut gpu);
    gpu.set(0xff40, 0x93);
    gpu.set(0xff47, 0b1110_0100);
    gpu.set(0xff48, 0b0001_1011); // 3, 2, 1, 0
    gpu.set(0xff49, 0b1110_0100);
    gpu.set(0x9801, 1); // background colour 3 in columns 8..16
    // sprite 0 at column 4: tile 2
    put_sprite(&mut gpu, 0, 16, 12, 2, 0x00);
    // sprite 1 at column 6, later in the table and to the right: hidden in
    // the columns of sprite 0, visible from column 12 on
    put_sprite(&mut gpu, 1, 16, 14, 1, 0x10);
    // sprite 2 at column 40, flipped
    put_sprite(&mut gpu, 2, 16, 48, 2, 0x20);
    // sprite 3 at column 8 behind the background
    put_sprite(&mut gpu, 3, 16, 16 + 50, 3, 0x00);
    gpu.ly = 0;
    draw_line(&mut gpu);
    // sprite 0: colour 1 -> OBP0 shade 2 (dark), colour 2 -> shade 1 (light)
    for x in 4..8 {
        assert_eq!(pixel(&gpu, x, 0).0, 0x60);
    }
    for x in 8..12 {
        assert_eq!(pixel(&gpu, x, 0).0, 0xc0);
    }
    // sprite 1: colour 3 through OBP1 -> blank
    for x in 12..14 {
        assert_eq!(pixel(&gpu, x, 0).0, 0x00);
    }
    // background colour 3 where no sprite is
    assert_eq!(pixel(&gpu, 14, 0).0, 0x00);
    assert_eq!(pixel(&gpu, 16, 0).0, 0xff);
    // sprite 2 flipped: colour 2 on the left, colour 1 on the right
    for x in 40..44 {
        assert_eq!(pixel(&gpu, x, 0).0, 0xc0);
    }
    for x in 44..48 {
        assert_eq!(pixel(&gpu, x, 0).0, 0x60);
    }
    // sprite 3: colour 0 is transparent
    let row: Vec<u8> = (58..66).map(|x| pixel(&gpu, x, 0).0).collect();
    assert_eq!(row, vec![0xff, 0x60, 0xc0, 0xff, 0xff, 0x60, 0xc0, 0xff]);
}

#[test]
fn monochrome_sprite_behind_background() {
    let mut gpu = GPU::power_up(Term::GB);
    load_tiles(&mut gpu);
    gpu.set(0xff40, 0x93);
    gpu.set(0xff47, 0b1110_0100);
    gpu.set(0xff48, 0b1110_0100);
    gpu.set(0x9801, 1);
    put_sprite(&mut gpu, 0, 16, 12, 2, 0x80); // columns 4..12, background priority
    gpu.ly = 0;
    draw_line(&mut gpu);
    // over background colour 0 the sprite shows
    assert_eq!(pixel(&gpu, 4, 0).0, 0xc0);
    // over background colour 3 the background shows
    assert_eq!(pixel(&gpu, 8, 0).0, 0x00);
    // sprites off
    gpu.set(0xff40, 0x91);
    gpu.ly = 1;
    draw_line(&mut gpu);
    assert_eq!(pixel(&gpu, 4, 1).0, 0xff);
}

#[test]
fn equal_columns_resolve_to_the_earlier_sprite() {
    let mut gpu = GPU::power_up(Term::GB);
    load_tiles(&mut gpu);
    gpu.set(0xff40, 0x93);
    gpu.set(0xff48, 0b1110_0100);
    put_sprite(&mut gpu, 0, 16, 28, 2, 0x00);
    put_sprite(&mut gpu, 1, 16, 28, 1, 0x00);
    gpu.ly = 0;
    draw_line(&mut gpu);
    for x in 20..24 {
        assert_eq!(pixel(&gpu, x, 0).0, 0xc0);
    }
    for x in 24..28 {
        assert_eq!(pixel(&gpu, x, 0).0, 0x60);
    }
}

#[test]
fn colour_stretch_formula() {
    let mut row = [0u8; 480];
    let r = CGBRender::init();
    r._set_rgb(&mut row, 0, 0x1f, 0x1f, 0x1f);
    r._set_rgb(&mut row, 1, 0x1f, 0x00, 0x00);
    r._set_rgb(&mut row, 2, 0x00, 0x1f, 0x00);
    r._set_rgb(&mut row, 3, 0x00, 0x00, 0x1f);
    r._set_rgb(&mut row, 159, 0x0a, 0x14, 0x05);
    assert_eq!(&row[0..3], &[248, 248, 248]);
    assert_eq!(&row[3..6], &[201, 0, 46]);
    assert_eq!(&row[6..9], &[31, 186, 31]);
    assert_eq!(&row[9..12], &[15, 62, 170]);
    assert_eq!(&row[477..480], &[87, 130, 62]);
    assert_eq!(&row[12..15], &[0, 0, 0]);
    let g = GBRender::init();
    g._set_gray(&mut row, 4, 0x60);
    assert_eq!(&row[12..15], &[0x60, 0x60, 0x60]);
    assert_eq!(g._get_gray_shades(0b1110_0100, 0).value(), 0xff);
    assert_eq!(g._get_gray_shades(0b1110_0100, 1).value(), 0xc0);
    assert_eq!(g._get_gray_shades(0b1110_0100, 2).value(), 0x60);
    assert_eq!(g._get_gray_shades(0b1110_0100, 3).value(), 0x00);
}

fn set_colour(gpu: &mut GPU, port: u16, palette: u8, colour: u8, word: u16) {
    gpu.set(port - 1, 0x80 | (palette * 8 + colour * 2));
    gpu.set(port, (word & 0xff) as u8);
    gpu.set(port, (word >> 8) as u8);
}

#[test]
fn colour_background_and_sprites() {
    let mut gpu = GPU::power_up(Term::GBC);
    load_tiles(&mut gpu);
    gpu.set(0xff40, 0x93);
    // background palette 2: colour 1 red, colour 2 green; palette 0: colour 3 blue
    set_colour(&mut gpu, 0xff69, 2, 1, 0x001f);
    set_colour(&mut gpu, 0xff69, 2, 2, 0x03e0);
    set_colour(&mut gpu, 0xff69, 0, 3, 0x7c00);
    // sprite palette 0: colour 3 white; palette 1: colour 3 red
    set_colour(&mut gpu, 0xff6b, 0, 3, 0x7fff);
    set_colour(&mut gpu, 0xff6b, 1, 3, 0x001f);
    gpu.set(0x9800, 2);
    gpu.set(0x9801, 2);
    gpu.set(0x9802, 1);
    gpu.set(0x9803, 1);
    gpu.set(0xff4f, 1);
    gpu.set(0x9800, 0x02); // palette 2
    gpu.set(0x9801, 0x22); // palette 2, flipped horizontally
    gpu.set(0x9802, 0x00);
    gpu.set(0x9803, 0x80); // tile priority
    gpu.set(0xff4f, 0);
    // a sprite over columns 20..28 (background colour 3, partly with tile priority)
    put_sprite(&mut gpu, 0, 16, 28, 1, 0x00);
    // a second sprite on the same columns, later in the table
    put_sprite(&mut gpu, 1, 16, 28, 1, 0x10);
    // a sprite with its own priority bit over background colour 1
    put_sprite(&mut gpu, 2, 16, 8, 1, 0x80);
    gpu.ly = 0;
    draw_line(&mut gpu);
    assert_eq!(pixel(&gpu, 0, 0), (201, 0, 46)); // red behind sprite 2
    assert_eq!(pixel(&gpu, 4, 0), (31, 186, 31)); // green
    assert_eq!(pixel(&gpu, 8, 0), (31, 186, 31)); // flipped: green first
    assert_eq!(pixel(&gpu, 12, 0), (201, 0, 46));
    assert_eq!(pixel(&gpu, 16, 0), (15, 62, 170)); // blue
    assert_eq!(pixel(&gpu, 20, 0), (248, 248, 248)); // first sprite wins
    assert_eq!(pixel(&gpu, 23, 0), (248, 248, 248));
    assert_eq!(pixel(&gpu, 24, 0), (15, 62, 170)); // tile priority keeps the background
    assert_eq!(pixel(&gpu, 32, 0), (0, 0, 0));
    // with bit 0 of LCDC clear the sprites always win
    gpu.set(0xff40, 0x92);
    gpu.ly = 1;
    draw_line(&mut gpu);
    assert_eq!(pixel(&gpu, 0, 1), (248, 248, 248));
    assert_eq!(pixel(&gpu, 24, 1), (248, 248, 248));
}

#[test]
fn renderers_track_the_background() {
    let mut gpu = GPU::power_up(Term::GB);
    load_tiles(&mut gpu);
    gpu.set(0xff40, 0x91);
    gpu.set(0xff47, 0b1110_0100);
    gpu.set(0x9800, 3);
    let mut row = [0u8; 480];
    let mut r = GBRender::init();
    r.draw_bg(&gpu, &mut row);
    assert_eq!(&r._bg_trans[0..4], &[true, false, false, false]);
    assert!(r._bg_trans[8]);
    assert_eq!(&row[0..12], &[0xff, 0xff, 0xff, 0xc0, 0xc0, 0xc0, 0x60, 0x60, 0x60, 0, 0, 0]);
    r.draw_sprites(&gpu, &mut row);
    assert!(r._has_draw.is_empty());
    let mut c = CGBRender::init();
    let mut gpu = GPU::power_up(Term::GBC);
    load_tiles(&mut gpu);
    gpu.set(0xff40, 0x91);
    gpu.set(0x9800, 3);
    gpu.set(0xff4f, 1);
    gpu.set(0x9800, 0x80);
    c.draw_bg(&gpu, &mut row);
    assert_eq!(&c._bg_colors[0..4], &[0, 1, 2, 3]);
    assert!(c._bg_prio[0] && c._bg_prio[7] && !c._bg_prio[8]);
}
