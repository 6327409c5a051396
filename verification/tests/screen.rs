use trip_night::screen::FlipResult;
use trip_night::screen::PixelState;
use trip_night::screen::Screen;

fn new_screen_with_single_row(y: u8, row: u64) -> Screen {
    let mut screen = Screen::new();
    screen.set_row(y, row);
    screen
}

#[test]
fn mask_generation() {
    assert_eq!(Screen::generate_mask(0x80, 10), 0x0020_0000_0000_0000);
    assert_eq!(Screen::generate_mask(0x80, 11), 0x0010_0000_0000_0000);
    assert_eq!(Screen::generate_mask(0xC0, 10), 0x0030_0000_0000_0000);
    assert_eq!(Screen::generate_mask(0xFF, 32), 0x0000_0000_FF00_0000);
    assert_eq!(Screen::generate_mask(0xBE, 40), 0x0000_0000_00BE_0000);
}

#[test]
fn pixel_flip() {
    let mut screen = new_screen_with_single_row(4, 0xDEAD_BEEF_0000_0123);
    assert_eq!(screen.get_pixel(55, 4), PixelState::On);
    assert_eq!(screen.is_changed(), false);
    assert_eq!(screen.flip_pixel(55, 4), FlipResult::UnsetBit);
    assert_eq!(screen.is_changed(), true);
    assert_eq!(screen.get_pixel(55, 4), PixelState::Off);
    assert_eq!(screen.get_row(4), 0xDEAD_BEEF_0000_0023);
    assert_eq!(screen.flip_pixel(55, 4), FlipResult::NoUnsetBit);
}

#[test]
fn vectored_flip() {
    let mut screen = new_screen_with_single_row(17, 0xDEAD_BEEF_0000_0123);
    assert_eq!(screen.get_vectored(8, 17), 0xAD);
    assert_eq!(screen.is_changed(), false);
    assert_eq!(screen.flip_vectored(0xAD, 8, 17), FlipResult::UnsetBit);
    assert_eq!(screen.is_changed(), true);
    assert_eq!(screen.get_vectored(8, 17), 0x00);
    assert_eq!(screen.get_row(17), 0xDE00_BEEF_0000_0123);
    assert_eq!(screen.flip_vectored(0xED, 8, 17), FlipResult::NoUnsetBit);
    assert_eq!(screen.get_vectored(8, 17), 0xED);
}

#[test]
fn clear_screen() {
    let mut screen = new_screen_with_single_row(17, 0xDEAD_BEEF_0000_0123);
    assert_eq!(screen.is_changed(), false);
    screen.clear();
    assert_eq!(screen.get_row(17), 0);
    assert_eq!(screen.is_changed(), true);
}

#[test]
fn set_and_unset_pixel() {
    let mut screen = Screen::new();
    screen.set_pixel(0, 0);
    assert_eq!(screen.get_row(0), 0x8000_0000_0000_0000);
    screen.set_pixel(63, 0);
    assert_eq!(screen.get_row(0), 0x8000_0000_0000_0001);
    screen.unset_pixel(0, 0);
    assert_eq!(screen.get_row(0), 0x0000_0000_0000_0001);
    assert_eq!(screen.get_pixel(63, 0), PixelState::On);
    assert_eq!(screen.get_pixel(0, 0), PixelState::Off);
}

#[test]
fn coordinates_alias_modulo_dimensions() {
    let mut screen = Screen::new();
    // x aliases modulo 64, y modulo 32: (64 + 3, 32 + 5) is (3, 5).
    screen.set_pixel(67, 37);
    assert_eq!(screen.get_pixel(3, 5), PixelState::On);
    assert_eq!(screen.get_row(5), Screen::generate_mask(0x80, 3));
}

#[test]
fn vector_truncates_at_right_edge() {
    let mut screen = Screen::new();
    // All eight pattern bits set, placed at column 60: only four columns
    // remain, the rest is dropped, not wrapped to column 0.
    screen.set_vectored(0xFF, 60, 0);
    assert_eq!(screen.get_row(0), 0x0000_0000_0000_000F);
}

#[test]
fn flip_twice_restores_screen() {
    let mut screen = new_screen_with_single_row(9, 0x0123_4567_89AB_CDEF);
    screen.flip_vectored(0x5A, 20, 9);
    screen.flip_vectored(0x5A, 20, 9);
    assert_eq!(screen.get_row(9), 0x0123_4567_89AB_CDEF);
}

#[test]
fn iterate_all_pixels_row_major() {
    let mut screen = Screen::new();
    screen.set_pixel(2, 0);
    let mut it = screen.iter();
    assert_eq!(it.next(), Some((0, 0, PixelState::Off)));
    assert_eq!(it.next(), Some((1, 0, PixelState::Off)));
    assert_eq!(it.next(), Some((2, 0, PixelState::On)));

    let mut count: u32 = 3;
    while let Some((x, y, _)) = it.next() {
        assert_eq!(x, (count % 64) as u8);
        assert_eq!(y, (count / 64) as u8);
        count += 1;
    }
    assert_eq!(count, 2048);
    assert_eq!(it.next(), None);
}

#[test]
fn iteration_is_restartable() {
    let mut screen = Screen::new();
    screen.set_pixel(5, 5);
    let mut first = screen.iter();
    for _ in 0..100 {
        first.next();
    }
    let mut again = screen.iter();
    assert_eq!(again.next(), Some((0, 0, PixelState::Off)));
}
