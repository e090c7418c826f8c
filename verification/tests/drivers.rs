use waveshare_watch::drivers::framebuffer::{flush_window, Framebuffer, HEIGHT, PIXEL_COUNT, WIDTH};
use waveshare_watch::drivers::qspi_bus::{c16_bytes, command_address, encode_pixels, pixel_chunks, repeat_bytes, CHUNK_PIXELS};
use waveshare_watch::text::{prefix_str_or, str_from_utf8, utf8_or};

// ---------------------------------------------------------------- framebuffer

#[test]
fn framebuffer_starts_black() {
    let fb = Framebuffer::new();
    assert_eq!(fb.buffer().len(), PIXEL_COUNT);
    assert_eq!(PIXEL_COUNT, 368 * 448);
    assert!(fb.buffer().iter().all(|&p| p == 0));
}

#[test]
fn framebuffer_pixels_and_bounds() {
    let mut fb = Framebuffer::new();
    fb.set_pixel(3, 2, 0xABCD);
    assert_eq!(fb.buffer()[2 * WIDTH + 3], 0xABCD);
    fb.set_pixel(WIDTH, 0, 0x1111);
    fb.set_pixel(0, HEIGHT, 0x1111);
    assert_eq!(fb.buffer().iter().filter(|&&p| p != 0).count(), 1);
    fb.put_pixel(-1, 5, 0x2222);
    fb.put_pixel(5, 5, 0x2222);
    assert_eq!(fb.buffer()[5 * WIDTH + 5], 0x2222);
    assert_eq!(fb.buffer().iter().filter(|&&p| p != 0).count(), 2);
}

#[test]
fn framebuffer_fill_rect_clips() {
    let mut fb = Framebuffer::new();
    fb.fill_rect(WIDTH - 2, HEIGHT - 1, 10, 10, 7);
    assert_eq!(fb.buffer().iter().filter(|&&p| p == 7).count(), 2);
    assert_eq!(fb.buffer()[PIXEL_COUNT - 1], 7);
    assert_eq!(fb.buffer()[PIXEL_COUNT - 2], 7);
    fb.fill_rect(10, 10, 3, 2, 9);
    assert_eq!(fb.buffer().iter().filter(|&&p| p == 9).count(), 6);
    assert_eq!(fb.buffer()[11 * WIDTH + 12], 9);
    assert_eq!(fb.buffer()[11 * WIDTH + 13], 0);
}

#[test]
fn framebuffer_fill_solid_with_negative_origin() {
    let mut fb = Framebuffer::new();
    fb.fill_solid(-5, -5, 8, 7, 3);
    assert_eq!(fb.buffer().iter().filter(|&&p| p == 3).count(), 3 * 2);
    fb.fill_solid(500, 0, 10, 10, 4);
    assert!(fb.buffer().iter().all(|&p| p != 4));
}

#[test]
fn framebuffer_fill_contiguous_row_major() {
    let mut fb = Framebuffer::new();
    fb.fill_contiguous(1, 1, 2, 2, &[1, 2, 3, 4]);
    assert_eq!(fb.buffer()[WIDTH + 1], 1);
    assert_eq!(fb.buffer()[WIDTH + 2], 2);
    assert_eq!(fb.buffer()[2 * WIDTH + 1], 3);
    assert_eq!(fb.buffer()[2 * WIDTH + 2], 4);
    // colours past the last row are dropped
    fb.fill_contiguous(0, HEIGHT as i32 - 1, 1, 5, &[8, 9, 10]);
    assert_eq!(fb.buffer()[(HEIGHT - 1) * WIDTH], 8);
}

#[test]
fn framebuffer_clear_and_swap() {
    let mut fb = Framebuffer::new();
    fb.clear_color(0xF800);
    assert!(fb.buffer().iter().all(|&p| p == 0xF800));
    fb.swap();
    assert!(fb.buffer().iter().all(|&p| p == 0));
    fb.swap();
    assert!(fb.buffer().iter().all(|&p| p == 0xF800));
    fb.buffer_mut()[0] = 1;
    assert_eq!(fb.buffer()[0], 1);
}

#[test]
fn flush_window_is_even_aligned() {
    assert_eq!(flush_window(0, 0, 0, 5), None);
    assert_eq!(flush_window(3, 5, 4, 3), Some((2, 4, 6, 4)));
    assert_eq!(flush_window(10, 10, 2, 2), Some((10, 10, 2, 2)));
    assert_eq!(flush_window(367, 447, 5, 5), Some((366, 446, 2, 2)));
    assert_eq!(flush_window(1000, 1000, 1, 1), Some((366, 446, 2, 2)));
    assert_eq!(flush_window(0, 0, 1000, 1000), Some((0, 0, 368, 448)));
}

// ---------------------------------------------------------------- qspi framing

#[test]
fn qspi_register_framing() {
    assert_eq!(command_address(0x2A), 0x2A00);
    assert_eq!(c16_bytes(0x0102, 0xA0B0), [0x01, 0x02, 0xA0, 0xB0]);
}

#[test]
fn qspi_pixels_are_big_endian() {
    assert_eq!(encode_pixels(&[0x1234, 0xF800]), vec![0x12, 0x34, 0xF8, 0x00]);
    assert_eq!(encode_pixels(&[]), Vec::<u8>::new());
    assert_eq!(repeat_bytes(0xABCD, 3), vec![0xAB, 0xCD, 0xAB, 0xCD, 0xAB, 0xCD]);
}

#[test]
fn qspi_chunks_cover_all_pixels() {
    assert_eq!(pixel_chunks(0), Vec::<usize>::new());
    assert_eq!(pixel_chunks(10), vec![10]);
    assert_eq!(pixel_chunks(CHUNK_PIXELS), vec![4000]);
    assert_eq!(pixel_chunks(9001), vec![4000, 4000, 1001]);
    let n = 368 * 448;
    let chunks = pixel_chunks(n);
    assert_eq!(chunks.iter().sum::<usize>(), n);
    assert!(chunks.iter().all(|&c| c > 0 && c <= 4000));
}

// ---------------------------------------------------------------- text helpers

#[test]
fn utf8_decoding_wrapper() {
    assert_eq!(str_from_utf8(b"abc"), Some("abc"));
    assert_eq!(str_from_utf8(&[0xC3, 0xA9]), Some("é"));
    assert_eq!(str_from_utf8(&[0xC3]), None);
    assert_eq!(prefix_str_or(b"hello", 4, "x"), "hell");
    assert_eq!(prefix_str_or(&[0x68, 0xC3, 0xA9], 2, "x"), "x");
    assert_eq!(utf8_or(vec![0xFF], b"fb"), b"fb".to_vec());
    assert_eq!(utf8_or(b"ok".to_vec(), b"fb"), b"ok".to_vec());
}
