use style::color::{convert_nscolor_to_rgba, convert_rgba_to_nscolor, Rgba};
use style::coord::{
    CalcLengthOrPercentage, CalcValue, CoordDataValue, CssFloat, LengthOrPercentage,
    LengthOrPercentageOrAuto, LengthOrPercentageOrNone, StyleCoord,
};
use style::keywords::{BorderStyle, Display, ListStyleType, VerticalAlignKeyword};
use style::units::{round_border_to_device_pixels, Au};

#[test]
fn round_border_keeps_zero() {
    assert_eq!(round_border_to_device_pixels(Au(0), Au(60)), Au(0));
}

#[test]
fn round_border_rounds_thin_width_up_to_one_pixel() {
    assert_eq!(round_border_to_device_pixels(Au(30), Au(60)), Au(60));
    assert_eq!(round_border_to_device_pixels(Au(1), Au(60)), Au(60));
}

#[test]
fn round_border_rounds_down_to_whole_pixels() {
    assert_eq!(round_border_to_device_pixels(Au(125), Au(60)), Au(120));
    assert_eq!(round_border_to_device_pixels(Au(180), Au(60)), Au(180));
    assert_eq!(round_border_to_device_pixels(Au(239), Au(60)), Au(180));
}

#[test]
fn round_border_negative_width_is_one_pixel() {
    assert_eq!(round_border_to_device_pixels(Au(-5), Au(60)), Au(60));
    assert_eq!(round_border_to_device_pixels(Au(-125), Au(60)), Au(60));
}

#[test]
fn nscolor_packs_as_abgr() {
    let c = Rgba { red: 0x11, green: 0x22, blue: 0x33, alpha: 0x44 };
    assert_eq!(convert_rgba_to_nscolor(&c), 0x44332211);
}

#[test]
fn nscolor_unpacks_channels() {
    assert_eq!(
        convert_nscolor_to_rgba(0xFF00807F),
        Rgba { red: 0x7F, green: 0x80, blue: 0x00, alpha: 0xFF }
    );
}

#[test]
fn nscolor_roundtrip_values() {
    for n in [0u32, 1, 0xFFFFFFFF, 0x12345678, 0x80000000] {
        assert_eq!(convert_rgba_to_nscolor(&convert_nscolor_to_rgba(n)), n);
    }
    let c = Rgba { red: 1, green: 2, blue: 3, alpha: 4 };
    assert_eq!(convert_nscolor_to_rgba(convert_rgba_to_nscolor(&c)), c);
}

#[test]
fn keyword_constants_roundtrip() {
    assert_eq!(BorderStyle::Solid.to_gecko(), 5);
    assert_eq!(BorderStyle::from_gecko(9), Some(BorderStyle::Hidden));
    assert_eq!(BorderStyle::from_gecko(31), None);
    assert_eq!(Display::from_gecko(Display::TableCell.to_gecko()), Some(Display::TableCell));
    assert_eq!(VerticalAlignKeyword::Middle.to_gecko(), 19);
    assert_eq!(ListStyleType::from_gecko(ListStyleType::Square.to_gecko()), Some(ListStyleType::Square));
}

#[test]
fn length_or_percentage_coord_roundtrip() {
    let values = [
        LengthOrPercentage::Length(Au(120)),
        LengthOrPercentage::Percentage(CssFloat(0x3f000000)),
        LengthOrPercentage::Calc(CalcLengthOrPercentage { length: Au(-60), percentage: None }),
        LengthOrPercentage::Calc(CalcLengthOrPercentage { length: Au(7), percentage: Some(CssFloat(0x3e800000)) }),
    ];
    for v in values {
        let mut c = StyleCoord::null();
        v.to_gecko_style_coord(&mut c);
        assert_eq!(LengthOrPercentage::from_gecko_style_coord(&c), Some(v));
    }
}

#[test]
fn calc_without_percentage_is_stored_without_percent() {
    let mut c = StyleCoord::null();
    LengthOrPercentage::Calc(CalcLengthOrPercentage { length: Au(5), percentage: None }).to_gecko_style_coord(&mut c);
    assert_eq!(
        c.as_value(),
        CoordDataValue::Calc(CalcValue { length: 5, percent: CssFloat(0), has_percent: false })
    );
}

#[test]
fn auto_and_none_coords() {
    let mut c = StyleCoord::null();
    LengthOrPercentageOrAuto::Auto.to_gecko_style_coord(&mut c);
    assert_eq!(c.as_value(), CoordDataValue::Auto);
    assert_eq!(LengthOrPercentageOrAuto::from_gecko_style_coord(&c), Some(LengthOrPercentageOrAuto::Auto));
    assert_eq!(LengthOrPercentage::from_gecko_style_coord(&c), None);
    LengthOrPercentageOrNone::NoneValue.to_gecko_style_coord(&mut c);
    assert_eq!(c.as_value(), CoordDataValue::NoneValue);
    assert_eq!(LengthOrPercentageOrNone::from_gecko_style_coord(&c), Some(LengthOrPercentageOrNone::NoneValue));
}

#[test]
fn round_border_negative_device_pixel_size() {
    assert_eq!(round_border_to_device_pixels(Au(30), Au(-60)), Au(0));
    assert_eq!(round_border_to_device_pixels(Au(130), Au(-60)), Au(120));
    assert_eq!(round_border_to_device_pixels(Au(0), Au(0)), Au(0));
    assert_eq!(round_border_to_device_pixels(Au(i32::MIN), Au(7)), Au(7));
}
