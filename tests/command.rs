use gc9a01::command::{
    send_all, Command, DataFormatMDT, Dbi, Dpi, Gamma1, Logical, VddAd, DEPolarity, RCMMode, XSpl,
    DOTClk,
};
use gc9a01::wire::Step;

#[test]
fn column_address_set_is_big_endian() {
    let (op, params) = Command::ColumnAddressSet(0x0010, 0x00EF).serialize();
    assert_eq!(op, 0x2A);
    assert_eq!(params, vec![0x00, 0x10, 0x00, 0xEF]);
}

#[test]
fn row_address_set_is_big_endian() {
    let (op, params) = Command::RowAddressSet(0x0123, 0x4567).serialize();
    assert_eq!(op, 0x2B);
    assert_eq!(params, vec![0x01, 0x23, 0x45, 0x67]);
}

#[test]
fn pixel_format_packs_both_interfaces() {
    let (op, params) = Command::PixelFormatSet(Dbi::Pixel18bits, Dpi::Pixel18bits).serialize();
    assert_eq!(op, 0x3A);
    assert_eq!(params, vec![0x66]);
    let (_, params) = Command::PixelFormatSet(Dbi::Pixel12bits, Dpi::Pixel16bits).serialize();
    assert_eq!(params, vec![0x53]);
}

#[test]
fn memory_access_control_packs_bits_from_the_top() {
    let (op, params) = Command::MemoryAccessControl(
        Logical::On,
        Logical::Off,
        Logical::Off,
        Logical::On,
        Logical::On,
        Logical::Off,
    )
    .serialize();
    assert_eq!(op, 0x36);
    assert_eq!(params, vec![0b1001_1000]);
    let (_, params) = Command::MemoryAccessControl(
        Logical::Off,
        Logical::On,
        Logical::On,
        Logical::Off,
        Logical::Off,
        Logical::On,
    )
    .serialize();
    assert_eq!(params, vec![0b0110_0100]);
}

#[test]
fn sleep_mode_off_is_sleep_out_opcode() {
    assert_eq!(Command::SleepMode(Logical::Off).serialize(), (0x11, vec![]));
    assert_eq!(Command::SleepMode(Logical::On).serialize(), (0x10, vec![]));
}

#[test]
fn toggles_add_their_bit_to_the_opcode() {
    assert_eq!(Command::DisplayInversion(Logical::Off).serialize().0, 0x20);
    assert_eq!(Command::DisplayInversion(Logical::On).serialize().0, 0x21);
    assert_eq!(Command::DisplayState(Logical::Off).serialize().0, 0x28);
    assert_eq!(Command::DisplayState(Logical::On).serialize().0, 0x29);
    assert_eq!(Command::TearingEffectLine(Logical::On).serialize().0, 0x35);
    assert_eq!(Command::IdleMode(Logical::On).serialize().0, 0x39);
}

#[test]
fn tear_scanline_is_shifted_by_eight() {
    assert_eq!(Command::SetTearScanline(250).serialize(), (0x44, vec![0x01, 0x02]));
    assert_eq!(Command::SetTearScanline(10).serialize(), (0x44, vec![0x00, 0x12]));
}

#[test]
fn gamma_fields_are_cut_to_their_width() {
    let g = Gamma1 {
        dig2j0_n: 0xFF,
        vr1_n: 0xFF,
        dig2j1_n: 0b01,
        vr2_n: 0b00_1001,
        vr4_n: 0xFF,
        vr6_n: 0b1000,
        vr0_n: 0b10,
        vr13_n: 0b0110,
        vr20_n: 0xFF,
    };
    let (op, params) = Command::SetGamma1(g).serialize();
    assert_eq!(op, 0xF0);
    assert_eq!(params, vec![0xFF, 0x49, 0x1F, 0x08, 0x26, 0x7F]);
}

#[test]
fn signal_control_packs_polarities_and_mode() {
    let (op, params) = Command::RGBInterfaceSignalCtrl(
        DEPolarity::LowEnableForRGB,
        DOTClk::FetchOnRising,
        XSpl::HighSyncClock,
        XSpl::LowSyncClock,
        RCMMode::SyncMode,
    )
    .serialize();
    assert_eq!(op, 0xB0);
    assert_eq!(params, vec![0x65]);
}

#[test]
fn vendor_calibration_payload_is_fixed() {
    let (op, params) = Command::SetUndocumented070h.serialize();
    assert_eq!(op, 0x70);
    assert_eq!(params, vec![0x07, 0x07, 0x04, 0x0E, 0x0F, 0x09, 0x07, 0x08, 0x03]);
    let (op, params) = Command::SetUndocumented062h.serialize();
    assert_eq!(op, 0x62);
    assert_eq!(params.len(), 12);
}

#[test]
fn two_data_line_control_ends_with_zero() {
    let (op, params) = Command::Spi2dataControl(
        gc9a01::command::Data2EN::Data4Wire,
        DataFormatMDT::Color4M2Or3PixelPerTransition,
    )
    .serialize();
    assert_eq!(op, 0xE9);
    assert_eq!(params, vec![0x0D, 0x00]);
}

#[test]
fn send_puts_opcode_on_command_channel_and_parameters_on_data() {
    let mut out = Vec::new();
    Command::DisplayBrightness(0x42).send(&mut out);
    assert_eq!(out, vec![Step::Command(0x51), Step::Data(0x42)]);
    let mut out = Vec::new();
    Command::MemoryWrite.send(&mut out);
    assert_eq!(out, vec![Step::Command(0x2C)]);
}

#[test]
fn send_all_keeps_order() {
    let mut out = vec![Step::DelayMs(5)];
    send_all(&[Command::InnerRegisterEnable1, Command::VCoreVoltageControl(VddAd::VCore1_638V)], &mut out);
    assert_eq!(
        out,
        vec![Step::DelayMs(5), Step::Command(0xFE), Step::Command(0xA7), Step::Data(0x43)]
    );
}

#[test]
fn conversions_follow_the_tables() {
    assert_eq!(Logical::from(true), Logical::On);
    assert_eq!(Logical::from(0u8), Logical::Off);
    assert_eq!(Logical::from(7u8), Logical::On);
    assert_eq!(DataFormatMDT::from(3u8), DataFormatMDT::Color4Mk1PixelPerTransition);
    assert_eq!(VddAd::from(0x0Bu8), VddAd::VCore2_286V);
    assert_eq!(VddAd::from(200u8), VddAd::VCore1_713Vf);
    assert_eq!(DEPolarity::from(true), DEPolarity::HighEnableForRGB);
    assert_eq!(RCMMode::from(2u8), RCMMode::DEMode);
    assert_eq!(RCMMode::from(0u8), RCMMode::SyncMode);
}
