use gc9a01::command::Logical;
use gc9a01::display::{DisplayDefinition, DisplayResolution240x240};
use gc9a01::mode::{BasicMode, DisplayConfiguration};
use gc9a01::wire::{ResetStep, Step};
use gc9a01::{Brightness, DisplayRotation, Gc9a01};

fn basic(rotation: DisplayRotation) -> Gc9a01<DisplayResolution240x240, BasicMode> {
    Gc9a01::new(DisplayResolution240x240, rotation)
}

fn area(c0: u16, r0: u16, c1: u16, r1: u16) -> Vec<Step> {
    let b = |v: u16| [Step::Data((v >> 8) as u8), Step::Data((v & 0xFF) as u8)];
    let mut out = vec![Step::Command(0x2A)];
    out.extend(b(c0));
    out.extend(b(c1));
    out.push(Step::Command(0x2B));
    out.extend(b(r0));
    out.extend(b(r1));
    out
}

#[test]
fn geometry_of_the_round_panel() {
    let g = DisplayResolution240x240.geometry();
    assert_eq!((g.width, g.height, g.offset_x, g.offset_y, g.cols, g.rows), (240, 240, 0, 0, 240, 240));
}

#[test]
fn dimensions_and_bounds_follow_rotation() {
    let d = basic(DisplayRotation::Rotate90);
    assert_eq!(d.dimensions(), (240, 240));
    assert_eq!(d.bounds(), (239, 239));
    assert_eq!(d.get_screen_rotation(), DisplayRotation::Rotate90);
}

#[test]
fn each_rotation_sends_its_memory_access_byte() {
    let mut d = basic(DisplayRotation::Rotate0);
    let table = [
        (DisplayRotation::Rotate0, 0x18),
        (DisplayRotation::Rotate90, 0x98),
        (DisplayRotation::Rotate180, 0xD8),
        (DisplayRotation::Rotate270, 0x58),
    ];
    for (rotation, byte) in table {
        let steps = d.set_display_rotation(rotation);
        assert_eq!(steps, vec![Step::Command(0x36), Step::Data(byte)]);
        assert_eq!(d.get_screen_rotation(), rotation);
    }
    let steps = d.set_rotation(DisplayRotation::Rotate180);
    assert_eq!(steps, vec![Step::Command(0x36), Step::Data(0xD8)]);
}

#[test]
fn panel_configuration_ends_with_sleep_out_and_settle() {
    let mut out = Vec::new();
    DisplayResolution240x240.configure(&mut out);
    assert_eq!(&out[..2], &[Step::Command(0xFE), Step::Command(0xEF)]);
    assert_eq!(&out[2..5], &[Step::Command(0xB6), Step::Data(0x00), Step::Data(0x00)]);
    assert_eq!(&out[5..7], &[Step::Command(0x36), Step::Data(0x18)]);
    assert_eq!(&out[7..9], &[Step::Command(0x3A), Step::Data(0x55)]);
    let n = out.len();
    assert_eq!(&out[n - 2..], &[Step::Command(0x11), Step::DelayMs(120)]);
    assert_eq!(out.iter().filter(|s| matches!(s, Step::Command(_))).count(), 21);
}

#[test]
fn init_applies_rotation_brightness_and_display_on() {
    let d = basic(DisplayRotation::Rotate270);
    let steps = d.init_with_addr_mode();
    let mut config = Vec::new();
    DisplayResolution240x240.configure(&mut config);
    assert_eq!(&steps[..config.len()], &config[..]);
    assert_eq!(
        &steps[config.len()..],
        &[
            Step::Command(0x36),
            Step::Data(0x58),
            Step::Command(0x51),
            Step::Data(0x5F),
            Step::Command(0x29),
            Step::DelayMs(120),
        ]
    );
    let mut d = d;
    assert_eq!(d.init(), steps);
}

#[test]
fn state_commands() {
    let d = basic(DisplayRotation::Rotate0);
    assert_eq!(
        d.set_brightness(Brightness::bright()),
        vec![Step::Command(0x51), Step::Data(0x9F)]
    );
    assert_eq!(d.set_screen_state(Logical::Off), vec![Step::Command(0x28)]);
    assert_eq!(d.set_invert_pixels(true), vec![Step::Command(0x21)]);
    assert_eq!(d.set_invert_pixels(false), vec![Step::Command(0x20)]);
}

#[test]
fn draw_area_is_inclusive_column_then_row() {
    let d = basic(DisplayRotation::Rotate0);
    assert_eq!(d.set_draw_area((1, 2), (0x123, 4)), area(1, 2, 0x123, 4));
}

#[test]
fn raw_bytes_go_to_data_channel() {
    let d = basic(DisplayRotation::Rotate0);
    assert_eq!(d.draw(&[1, 2, 3]), vec![Step::Data(1), Step::Data(2), Step::Data(3)]);
    assert_eq!(d.draw(&[]), vec![]);
}

#[test]
fn basic_clear_blanks_every_pixel() {
    let d = basic(DisplayRotation::Rotate0);
    let steps = d.clear();
    let mut expected = area(0, 0, 239, 239);
    expected.push(Step::Command(0x2C));
    expected.extend(std::iter::repeat(Step::Pixel(0)).take(240 * 240));
    assert_eq!(steps, expected);
    assert_eq!(d.clear_fit().len(), 240 * 240);
}

#[test]
fn basic_pixels_go_straight_to_the_controller() {
    let d = basic(DisplayRotation::Rotate0);
    let mut expected = area(3, 4, 4, 4);
    expected.push(Step::Command(0x2C));
    expected.extend([Step::Pixel(0xAAAA), Step::Pixel(0x5555)]);
    assert_eq!(d.set_pixels((3, 4), (4, 4), &[0xAAAA, 0x5555]), expected);
    let mut expected = area(7, 9, 7, 9);
    expected.push(Step::Pixel(0x1234));
    assert_eq!(d.set_pixel(7, 9, 0x1234), expected);
}

#[test]
fn reset_pulses_the_line_with_fifty_ms_holds() {
    let d = basic(DisplayRotation::Rotate0);
    assert_eq!(
        d.reset(),
        vec![
            ResetStep::SetHigh,
            ResetStep::DelayMs(50),
            ResetStep::SetLow,
            ResetStep::DelayMs(50),
            ResetStep::SetHigh,
            ResetStep::DelayMs(50),
        ]
    );
}
