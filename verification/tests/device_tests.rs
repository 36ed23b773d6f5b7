use gb_emu::convention::{Term, CPU_FREQ, SCREEN_H, SCREEN_W};
use gb_emu::frame::{white_frame, FRAME_BYTES, ROW_BYTES};
use gb_emu::intf::Intf;
use gb_emu::joypad::Joypad;
use gb_emu::keyboard::{sync_keys, GbBtn, Keyboard, KEY_MAPS};
use gb_emu::memory::Memory;
use gb_emu::window::{pack_frame, Window, WindowBuffer, MAX_SCALE};

#[test]
fn conventions() {
    assert_eq!(CPU_FREQ, 4_194_304);
    assert_eq!((SCREEN_W, SCREEN_H), (160, 144));
    assert_eq!(FRAME_BYTES, 160 * 144 * 3);
    assert_eq!(ROW_BYTES, 160 * 3);
    assert!(Term::GB != Term::GBC);
}

#[test]
fn keyboard_mask() {
    let mut k = Keyboard::create();
    assert_eq!(k.pressed_key, 0);
    k.press_button(GbBtn::LEFT);
    k.press_button(GbBtn::A);
    k.press_button(GbBtn::SELECT);
    assert_eq!(k.pressed_key, 0x91);
    assert!(k.is_button_pressed(GbBtn::A));
    assert!(!k.is_button_pressed(GbBtn::B));
    k.release_button(GbBtn::A);
    k.release_button(GbBtn::B);
    assert_eq!(k.pressed_key, 0x81);
    for (btn, mask) in [
        (GbBtn::LEFT, 0x01u8),
        (GbBtn::UP, 0x02),
        (GbBtn::RIGHT, 0x04),
        (GbBtn::DOWN, 0x08),
        (GbBtn::A, 0x10),
        (GbBtn::B, 0x20),
        (GbBtn::START, 0x40),
        (GbBtn::SELECT, 0x80),
    ] {
        assert_eq!(btn.bit(), mask);
        let mut k = Keyboard::create();
        k.press_button(btn);
        assert_eq!(k.pressed_key, mask);
    }
    assert_eq!(GbBtn::START.name(), "Start");
    assert_eq!(KEY_MAPS.len(), 8);
}

#[test]
fn keys_reach_the_joypad() {
    let mut k = Keyboard::create();
    let mut j = Joypad::power_up();
    let mut i = Intf::power_up();
    sync_keys(&k, &mut j, &mut i);
    assert_eq!(j.signals, 0xff);
    assert_eq!(i.data, 0);
    k.press_button(GbBtn::LEFT);
    k.press_button(GbBtn::START);
    sync_keys(&k, &mut j, &mut i);
    assert_eq!(j.signals, 0x7d);
    assert_eq!(i.data, 0x10);
    i.data = 0;
    sync_keys(&k, &mut j, &mut i);
    assert_eq!(i.data, 0); // no new edge
    j.set(0xff00, 0x20);
    assert_eq!(j.get(0xff00), 0x2d);
    k.release_button(GbBtn::LEFT);
    k.press_button(GbBtn::UP);
    sync_keys(&k, &mut j, &mut i);
    assert_eq!(j.signals, 0x7b);
    assert_eq!(i.data, 0x10);
}

#[test]
fn frame_is_packed_as_argb() {
    let mut frame = white_frame();
    frame[0] = 0x12;
    frame[1] = 0x34;
    frame[2] = 0x56;
    let last = FRAME_BYTES - 3;
    frame[last] = 0xab;
    frame[last + 1] = 0xcd;
    frame[last + 2] = 0xef;
    let p = pack_frame(&frame);
    assert_eq!(p.len(), 160 * 144);
    assert_eq!(p[0], 0xff12_3456);
    assert_eq!(p[1], 0xffff_ffff);
    assert_eq!(p[160 * 144 - 1], 0xffab_cdef);
}

#[test]
fn frames_are_double_buffered() {
    let mut w = WindowBuffer::new(4);
    assert_eq!(w.get_render_buffer(), &vec![0u32; 4]);
    let free = w.get_free_buffer();
    assert!(free.is_empty());
    w.add_render_buffer(vec![1; 4]);
    // the frame on show stays until it is asked for again
    assert_eq!(w.buffers.len(), 2);
    assert_eq!(w.get_render_buffer(), &vec![1u32; 4]);
    assert_eq!(w.buffers.len(), 1);
    assert_eq!(w.caches.len(), 1);
    w.add_render_buffer(vec![2; 4]);
    w.add_render_buffer(vec![3; 4]);
    // the frame that waited is dropped, the newest waits
    assert_eq!(w.buffers.len(), 2);
    assert_eq!(w.buffers[1], vec![3u32; 4]);
    assert_eq!(w.caches.len(), 2);
    assert_eq!(w.get_render_buffer(), &vec![3u32; 4]);
    assert_eq!(w.get_render_buffer(), &vec![3u32; 4]);
    assert_eq!(w.caches.len(), 3);
    let spare = w.get_free_buffer();
    assert_eq!(spare, vec![0u32; 4]);
    assert_eq!(w.caches.len(), 2);
}

#[test]
fn window_enlarges_by_whole_factors() {
    let picture: Vec<u32> = (0..160 * 144u32).collect();
    let mut w = Window::create(1);
    assert_eq!((w.width, w.height), (160, 144));
    w.update_buffer(&picture);
    assert_eq!(w.get_buffer(), &picture);
    let mut w = Window::create(3);
    assert_eq!((w.width, w.height), (480, 432));
    w.update_buffer(&picture);
    let big = w.get_buffer().clone();
    assert_eq!(big.len(), 480 * 432);
    for (x, y) in [(0usize, 0usize), (1, 0), (2, 2), (3, 0), (0, 3), (479, 431), (241, 100)] {
        assert_eq!(big[y * 480 + x], picture[(y / 3) * 160 + x / 3]);
    }
    assert_eq!(big[479], 159);
    assert_eq!(big[480 * 3], 160);
    // a second frame reuses the spare buffer
    let other: Vec<u32> = (0..160 * 144u32).map(|p| p ^ 0xffff).collect();
    w.update_buffer(&other);
    assert_eq!(w.get_buffer()[0], 0xffff);
    assert_eq!(w.get_buffer().len(), 480 * 432);
}

#[test]
fn window_shows_black_before_the_first_frame() {
    let mut w = Window::create(2);
    assert_eq!(w.win_buffer.buf_size, 320 * 288);
    assert!(w.win_buffer.buffers.is_empty());
    assert!(w.win_buffer.caches.is_empty());
    assert_eq!(w.get_buffer(), &vec![0u32; 320 * 288]);
    assert_eq!(w.win_buffer.buffers.len(), 1);
    assert!(w.win_buffer.caches.is_empty());
    // the first frame waits behind the black one, then takes its place
    let picture: Vec<u32> = (0..160 * 144u32).collect();
    w.update_buffer(&picture);
    assert_eq!(w.win_buffer.buffers.len(), 2);
    assert_eq!(w.win_buffer.buffers[0], vec![0u32; 320 * 288]);
    assert_eq!(w.get_buffer()[2], 1);
    assert_eq!(w.win_buffer.buffers.len(), 1);
    assert_eq!(w.win_buffer.caches.len(), 1);
    assert_eq!(w.win_buffer.caches[0], vec![0u32; 320 * 288]);
    // the next frame is written to the spare buffer
    w.update_buffer(&picture);
    assert!(w.win_buffer.caches.is_empty());
    assert_eq!(w.win_buffer.buffers.len(), 2);
    // a third one replaces the one that waits
    let other: Vec<u32> = (0..160 * 144u32).map(|p| p + 7).collect();
    w.update_buffer(&other);
    assert_eq!(w.win_buffer.buffers.len(), 2);
    assert_eq!(w.win_buffer.caches.len(), 1);
    assert_eq!(w.win_buffer.buffers[1][0], 7);
    assert_eq!(w.get_buffer()[0], 7);
    assert_eq!(w.win_buffer.caches.len(), 2);
}

#[test]
fn window_takes_large_and_empty_factors() {
    assert_eq!(MAX_SCALE, 431);
    assert!(23040 * 431 * 431 <= u32::MAX as u64);
    assert!(23040 * 432 * 432 > u32::MAX as u64);
    let picture: Vec<u32> = (0..160 * 144u32).collect();
    let mut w = Window::create(17);
    assert_eq!((w.width, w.height), (2720, 2448));
    w.update_buffer(&picture);
    let big = w.get_buffer();
    assert_eq!(big.len(), 2720 * 2448);
    for (x, y) in [(0usize, 0usize), (16, 16), (17, 0), (0, 17), (2719, 2447), (1234, 999)] {
        assert_eq!(big[y * 2720 + x], picture[(y / 17) * 160 + x / 17]);
    }
    let w = Window::create(MAX_SCALE);
    assert_eq!((w.width, w.height), (68960, 62064));
    assert_eq!(w.win_buffer.buf_size as u64, 68960 * 62064);
    let mut w = Window::create(0);
    assert_eq!((w.width, w.height), (0, 0));
    w.update_buffer(&picture);
    assert!(w.get_buffer().is_empty());
}
