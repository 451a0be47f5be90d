use style::border::{BorderLonghand, BorderValue, GeckoBorder};
use style::color::{Color, Rgba};
use style::coord::{BorderRadiusSize, CssFloat, LengthOrPercentage};
use style::keywords::BorderStyle;
use style::outline::GeckoOutline;
use style::sides::{Corner, Side};
use style::units::Au;

fn border() -> GeckoBorder {
    (*GeckoBorder::initial()).clone()
}

#[test]
fn initial_border_is_none_with_current_color() {
    let b = border();
    assert_eq!(b.clone_border_top_style(), BorderStyle::None_);
    assert_eq!(b.clone_border_left_color(), Color::CurrentColor);
    assert_eq!(b.clone_border_bottom_width(), Au(0));
    assert!(!b.border_right_has_nonzero_width());
}

#[test]
fn border_style_keeps_current_color_flag() {
    let mut b = border();
    b.set_border_top_style(BorderStyle::Solid);
    assert_eq!(b.get_gecko().border_style[0], 0x25);
    assert_eq!(b.clone_border_top_style(), BorderStyle::Solid);
    assert_eq!(b.clone_border_top_color(), Color::CurrentColor);
}

#[test]
fn border_color_keeps_style() {
    let mut b = border();
    b.set_border_right_style(BorderStyle::Dashed);
    let red = Rgba { red: 255, green: 0, blue: 0, alpha: 255 };
    b.set_border_right_color(Color::Rgba(red));
    assert_eq!(b.get_gecko().border_style[1], 4);
    assert_eq!(b.get_gecko().border_color[1], 0xFF0000FF);
    assert_eq!(b.clone_border_right_color(), Color::Rgba(red));
    assert_eq!(b.clone_border_right_style(), BorderStyle::Dashed);
    b.set_border_right_color(Color::CurrentColor);
    assert_eq!(b.get_gecko().border_color[1], 0);
    assert_eq!(b.clone_border_right_color(), Color::CurrentColor);
    assert_eq!(b.clone_border_right_style(), BorderStyle::Dashed);
}

#[test]
fn border_color_clears_transparent_flag() {
    let mut b = border();
    b.gecko.border_style[2] = 0x40 | 3;
    b.set_border_bottom_color(Color::Rgba(Rgba { red: 1, green: 2, blue: 3, alpha: 4 }));
    assert_eq!(b.get_gecko().border_style[2], 3);
}

#[test]
fn border_width_is_rounded_to_device_pixels() {
    let mut b = border();
    b.set_border_left_width(Au(125));
    assert_eq!(b.clone_border_left_width(), Au(120));
    assert!(b.border_left_has_nonzero_width());
    b.set_border_left_width(Au(10));
    assert_eq!(b.clone_border_left_width(), Au(60));
    b.set_border_left_width(Au(0));
    assert!(!b.border_left_has_nonzero_width());
}

#[test]
fn border_style_copy_takes_color_flags_too() {
    let mut a = border();
    let mut b = border();
    b.set_border_top_style(BorderStyle::Groove);
    b.set_border_top_color(Color::Rgba(Rgba { red: 9, green: 9, blue: 9, alpha: 255 }));
    a.copy_border_top_style_from(&b);
    assert_eq!(a.clone_border_top_style(), BorderStyle::Groove);
    assert_eq!(a.get_gecko().border_style[0], 1);
    // The color value itself is not copied.
    assert_eq!(a.clone_border_top_color(), Color::Rgba(Rgba { red: 0, green: 0, blue: 0, alpha: 0 }));
}

#[test]
fn border_color_copy_keeps_own_style() {
    let mut a = border();
    a.set_border_left_style(BorderStyle::Inset);
    let mut b = border();
    let c = Rgba { red: 10, green: 20, blue: 30, alpha: 40 };
    b.set_border_left_color(Color::Rgba(c));
    a.copy_border_left_color_from(&b);
    assert_eq!(a.clone_border_left_color(), Color::Rgba(c));
    assert_eq!(a.clone_border_left_style(), BorderStyle::Inset);
    let fresh = border();
    a.copy_border_left_color_from(&fresh);
    assert_eq!(a.clone_border_left_color(), Color::CurrentColor);
}

#[test]
fn border_width_copy() {
    let mut a = border();
    let mut b = border();
    b.set_border_top_width(Au(240));
    a.copy_border_top_width_from(&b);
    assert_eq!(a.clone_border_top_width(), Au(240));
    assert_eq!(a.clone_border_right_width(), Au(0));
}

#[test]
fn border_radius_roundtrip() {
    let mut b = border();
    let r = BorderRadiusSize {
        width: LengthOrPercentage::Length(Au(300)),
        height: LengthOrPercentage::Percentage(CssFloat(0x3f000000)),
    };
    b.set_border_bottom_right_radius(r);
    assert_eq!(b.clone_border_bottom_right_radius(), r);
    let mut a = border();
    a.copy_border_bottom_right_radius_from(&b);
    assert_eq!(a.clone_border_bottom_right_radius(), r);
    assert_eq!(
        a.clone_border_top_left_radius(),
        BorderRadiusSize { width: LengthOrPercentage::Length(Au(0)), height: LengthOrPercentage::Length(Au(0)) }
    );
}

#[test]
fn border_longhand_dispatch() {
    let mut b = border();
    b.set_(BorderValue::Style(Side::Bottom, BorderStyle::Ridge));
    b.set_(BorderValue::Width(Side::Bottom, Au(61)));
    assert_eq!(b.clone_(BorderLonghand::Style(Side::Bottom)), BorderValue::Style(Side::Bottom, BorderStyle::Ridge));
    assert_eq!(b.clone_(BorderLonghand::Width(Side::Bottom)), BorderValue::Width(Side::Bottom, Au(60)));
    let mut a = border();
    a.copy_(&b, BorderLonghand::Width(Side::Bottom));
    assert_eq!(a.clone_border_bottom_width(), Au(60));
    let r = BorderRadiusSize { width: LengthOrPercentage::Length(Au(1)), height: LengthOrPercentage::Length(Au(2)) };
    a.set_(BorderValue::Radius(Corner::TopRight, r));
    assert_eq!(a.clone_(BorderLonghand::Radius(Corner::TopRight)), BorderValue::Radius(Corner::TopRight, r));
    assert_eq!(a.get_gecko().border_radius[2].as_value(), style::coord::CoordDataValue::Coord(1));
    assert_eq!(a.get_gecko().border_radius[3].as_value(), style::coord::CoordDataValue::Coord(2));
}

#[test]
fn outline_style_color_width() {
    let mut o = (*GeckoOutline::initial()).clone();
    assert_eq!(o.clone_outline_color(), Color::CurrentColor);
    o.set_outline_style(BorderStyle::Dotted);
    assert_eq!(o.clone_outline_style(), BorderStyle::Dotted);
    assert_eq!(o.clone_outline_color(), Color::CurrentColor);
    let c = Rgba { red: 0, green: 128, blue: 0, alpha: 255 };
    o.set_outline_color(Color::Rgba(c));
    assert_eq!(o.clone_outline_color(), Color::Rgba(c));
    assert_eq!(o.clone_outline_style(), BorderStyle::Dotted);
    assert!(!o.outline_has_nonzero_width());
    o.set_outline_width(Au(100));
    assert_eq!(o.clone_outline_width(), Au(60));
    assert!(o.outline_has_nonzero_width());
    let mut p = (*GeckoOutline::initial()).clone();
    p.copy_outline_width_from(&o);
    p.copy_outline_style_from(&o);
    assert_eq!(p.clone_outline_width(), Au(60));
    assert_eq!(p.clone_outline_style(), BorderStyle::Dotted);
}

#[test]
fn outline_radius_corners() {
    let mut o = (*GeckoOutline::initial()).clone();
    let r = BorderRadiusSize { width: LengthOrPercentage::Length(Au(5)), height: LengthOrPercentage::Length(Au(6)) };
    o.set__moz_outline_radius_bottomleft(r);
    assert_eq!(o.get_gecko().outline_radius[6].as_value(), style::coord::CoordDataValue::Coord(5));
    assert_eq!(o.get_gecko().outline_radius[7].as_value(), style::coord::CoordDataValue::Coord(6));
    let mut p = (*GeckoOutline::initial()).clone();
    p.copy__moz_outline_radius_bottomleft_from(&o);
    assert_eq!(p.get_gecko().outline_radius[7].as_value(), style::coord::CoordDataValue::Coord(6));
    assert_eq!(p.get_gecko().outline_radius[0].as_value(), style::coord::CoordDataValue::Coord(0));
}
