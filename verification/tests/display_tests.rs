use taskpanel::color::Color;
use taskpanel::display::{DisplayBuffer, Rotation, BUFFER_LEN, HEIGHT, WIDTH};

#[test]
fn new_buffer_is_black_and_sized() {
    let d = DisplayBuffer::new();
    assert_eq!(d.width(), WIDTH as usize);
    assert_eq!(d.height(), HEIGHT as usize);
    assert_eq!(d.buffer().len(), BUFFER_LEN);
    assert!(d.buffer().iter().all(|&b| b == 0));
}

#[test]
fn clear_fills_both_nibbles_and_every_pixel_reads_back() {
    let mut d = DisplayBuffer::new();
    d.clear_buffer(Color::White);
    assert!(d.buffer().iter().all(|&b| b == 0x11));
    for (x, y) in [(0, 0), (1, 0), (599, 447), (300, 200)] {
        assert_eq!(d.get_pixel(x, y), Some(Color::White));
    }
    d.clear_buffer(Color::Orange);
    assert!(d.buffer().iter().all(|&b| b == 0x66));
}

#[test]
fn set_pixel_reads_back_and_keeps_the_sibling_nibble() {
    let mut d = DisplayBuffer::new();
    d.clear_buffer(Color::White);
    d.set_pixel(10, 20, Color::Red);
    assert_eq!(d.get_pixel(10, 20), Some(Color::Red));
    // the sibling pixel sharing the byte is untouched
    assert_eq!(d.get_pixel(11, 20), Some(Color::White));
    // even x sits in the high nibble
    let idx = (20 * WIDTH as usize + 10) / 2;
    assert_eq!(d.buffer()[idx], 0x41);
    // writing the odd sibling keeps the even pixel
    d.set_pixel(11, 20, Color::Blue);
    assert_eq!(d.buffer()[idx], 0x43);
    assert_eq!(d.get_pixel(10, 20), Some(Color::Red));
}

#[test]
fn out_of_bounds_writes_are_dropped_silently() {
    let mut d = DisplayBuffer::new();
    d.clear_buffer(Color::White);
    let before: Vec<u8> = d.buffer().to_vec();
    d.set_pixel(-1, 5, Color::Red);
    d.set_pixel(5, -1, Color::Red);
    d.set_pixel(600, 5, Color::Red);
    d.set_pixel(5, 448, Color::Red);
    d.set_pixel(i32::MAX, i32::MAX, Color::Red);
    assert_eq!(d.buffer(), before.as_slice());
    assert_eq!(d.get_pixel(600, 5), None);
    assert_eq!(d.get_pixel(-1, 5), None);
}

#[test]
fn rotation_transforms_coordinates_consistently() {
    let mut d = DisplayBuffer::new();
    d.clear_buffer(Color::White);
    d.set_rotation(Rotation::Rotate90);
    assert_eq!(d.rotation(), Rotation::Rotate90);
    d.set_pixel(200, 7, Color::Green);
    // reading through the same rotation returns the color just set
    assert_eq!(d.get_pixel(200, 7), Some(Color::Green));
    // physically the pixel landed at (y, width - 1 - x)
    d.set_rotation(Rotation::Rotate0);
    assert_eq!(d.get_pixel(7, (WIDTH - 1 - 200) as i32), Some(Color::Green));
}

#[test]
fn rotation_bounds_follow_the_transform() {
    let mut d = DisplayBuffer::new();
    d.clear_buffer(Color::White);
    d.set_rotation(Rotation::Rotate90);
    // x = 100 maps to physical y = 499, beyond the panel: dropped
    let before: Vec<u8> = d.buffer().to_vec();
    d.set_pixel(100, 0, Color::Red);
    assert_eq!(d.buffer(), before.as_slice());
    // x = 200 maps to physical (0, 399), inside the panel
    d.set_pixel(200, 0, Color::Red);
    assert_eq!(d.get_pixel(200, 0), Some(Color::Red));
    d.set_rotation(Rotation::Rotate0);
    assert_eq!(d.get_pixel(0, 399), Some(Color::Red));
}
