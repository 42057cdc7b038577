use gc9a01::display::DisplayResolution240x240;
use gc9a01::mode::{BufferedGraphics, DisplayConfiguration, DrawError};
use gc9a01::wire::Step;
use gc9a01::{DisplayRotation, Gc9a01};

const RED: u16 = 0xF800;

fn buffered(rotation: DisplayRotation) -> Gc9a01<DisplayResolution240x240, BufferedGraphics> {
    Gc9a01::new(DisplayResolution240x240, rotation).into_buffered_graphics()
}

fn area(c0: u16, r0: u16, c1: u16, r1: u16) -> Vec<Step> {
    let b = |v: u16| [Step::Data((v >> 8) as u8), Step::Data((v & 0xFF) as u8)];
    let mut out = vec![Step::Command(0x2A)];
    out.extend(b(c0));
    out.extend(b(c1));
    out.push(Step::Command(0x2B));
    out.extend(b(r0));
    out.extend(b(r1));
    out
}

#[test]
fn new_buffer_is_zeroed_and_clean() {
    let mut d = buffered(DisplayRotation::Rotate0);
    assert_eq!(d.buffer().len(), 240 * 240);
    assert!(d.buffer().iter().all(|&p| p == 0));
    assert_eq!(d.flush(), vec![]);
}

#[test]
fn second_flush_after_clear_sends_nothing() {
    let mut d = buffered(DisplayRotation::Rotate0);
    d.clear();
    assert!(!d.flush().is_empty());
    assert_eq!(d.flush(), vec![]);
}

#[test]
fn dirty_rectangle_is_the_bounding_box() {
    let mut d = buffered(DisplayRotation::Rotate0);
    d.set_pixel(5, 5, 0x1111);
    d.set_pixel(10, 2, 0x2222);
    let steps = d.flush();
    let mut expected = area(5, 2, 10, 5);
    expected.push(Step::Command(0x2C));
    for y in 2..=5usize {
        for x in 5..=10usize {
            let p = if (x, y) == (5, 5) {
                0x1111
            } else if (x, y) == (10, 2) {
                0x2222
            } else {
                0
            };
            expected.push(Step::Pixel(p));
        }
    }
    assert_eq!(steps, expected);
}

#[test]
fn off_panel_pixels_are_clipped() {
    let mut d = buffered(DisplayRotation::Rotate0);
    d.set_pixel(240, 0, RED);
    d.set_pixel(0, 240, RED);
    d.set_pixel(u32::MAX, u32::MAX, RED);
    assert!(d.buffer().iter().all(|&p| p == 0));
    assert_eq!(d.flush(), vec![]);
}

#[test]
fn quarter_turn_transposes_the_index() {
    let mut d = buffered(DisplayRotation::Rotate0);
    d.set_rotation(DisplayRotation::Rotate90);
    d.set_pixel(3, 7, RED);
    assert_eq!(d.buffer()[3 * 240 + 7], RED);
    assert_eq!(d.buffer().iter().filter(|&&p| p == RED).count(), 1);
    let mut e = buffered(DisplayRotation::Rotate180);
    e.set_pixel(3, 7, RED);
    assert_eq!(e.buffer()[7 * 240 + 3], RED);
}

#[test]
fn fill_then_flush_sends_the_whole_frame() {
    let mut d = buffered(DisplayRotation::Rotate0);
    d.fill(RED);
    let steps = d.flush();
    let mut expected = area(0, 0, 239, 239);
    expected.push(Step::Command(0x2C));
    expected.extend(std::iter::repeat(Step::Pixel(RED)).take(240 * 240));
    assert_eq!(steps.len(), 11 + 240 * 240);
    assert_eq!(steps, expected);
}

#[test]
fn bulk_write_past_the_end_fails_and_writes_nothing() {
    let mut d = buffered(DisplayRotation::Rotate0);
    assert_eq!(d.set_pixels((239, 239), (239, 239), &[RED, RED]), Err(DrawError::OutOfBounds));
    assert!(d.buffer().iter().all(|&p| p == 0));
    assert_eq!(d.flush(), vec![]);
}

#[test]
fn bulk_write_fills_consecutive_pixels() {
    let mut d = buffered(DisplayRotation::Rotate0);
    assert_eq!(d.set_pixels((238, 0), (1, 1), &[1, 2, 3]), Ok(()));
    assert_eq!(&d.buffer()[238..241], &[1, 2, 3]);
    assert_eq!(d.set_pixels((239, 239), (239, 239), &[9]), Ok(()));
    assert_eq!(d.buffer()[240 * 240 - 1], 9);
    assert_eq!(d.set_pixels((0, 0), (0, 0), &[]), Ok(()));
}

#[test]
fn flush_under_quarter_turn_swaps_the_window() {
    let mut d = buffered(DisplayRotation::Rotate90);
    d.set_pixel(4, 9, RED);
    let steps = d.flush();
    let mut expected = area(9, 4, 9, 4);
    expected.push(Step::Command(0x2C));
    expected.push(Step::Pixel(RED));
    assert_eq!(steps, expected);
}

#[test]
fn clear_marks_everything_dirty_in_zeros() {
    let mut d = buffered(DisplayRotation::Rotate0);
    d.fill(RED);
    d.flush();
    d.clear();
    let steps = d.flush();
    assert_eq!(steps.len(), 11 + 240 * 240);
    assert!(steps[11..].iter().all(|s| *s == Step::Pixel(0)));
}

#[test]
fn buffered_init_clears_and_initialises() {
    let mut d = buffered(DisplayRotation::Rotate0);
    d.set_pixel(1, 1, RED);
    let steps = d.init();
    assert_eq!(steps.last(), Some(&Step::DelayMs(120)));
    assert!(d.buffer().iter().all(|&p| p == 0));
    assert_eq!(d.flush().len(), 11 + 240 * 240);
}
