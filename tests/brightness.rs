use gc9a01::Brightness;

#[test]
fn default_brightness_is_normal() {
    assert_eq!(Brightness::default(), Brightness::normal());
    assert_eq!(Brightness::default().brightness(), 0x5F);
}

#[test]
fn presets_have_their_levels() {
    assert_eq!(Brightness::dimmest().brightness(), 0x00);
    assert_eq!(Brightness::dim().brightness(), 0x2F);
    assert_eq!(Brightness::bright().brightness(), 0x9F);
    assert_eq!(Brightness::brightest().brightness(), 0xFF);
    assert_eq!(Brightness::custom(0x42).brightness(), 0x42);
}
