use std::sync::Arc;
use style::background::{
    AngleOrCorner, BackgroundAttachment, BackgroundBox, BackgroundRepeat, ColorStop, GeckoBackground,
    Gradient, HorizontalDirection, Image, Position, Repeat, StyleImage, VerticalDirection,
};
use style::border::GeckoBorder;
use style::box_struct::UrlExtraData;
use style::color::{Color, Rgba};
use style::computed_values::{ComputedValues, WritingMode};
use style::coord::{CalcLengthOrPercentage, CalcValue, CoordDataValue, CssFloat, LengthOrPercentage};
use style::keywords::BorderStyle;
use style::units::Au;

fn bg() -> GeckoBackground {
    (*GeckoBackground::initial()).clone()
}

#[test]
fn background_repeat_set_and_copy() {
    let mut b = bg();
    b.set_background_repeat(BackgroundRepeat::RepeatY);
    assert_eq!(b.get_gecko().image.layers[0].repeat, Repeat { x_repeat: 0, y_repeat: 3 });
    assert_eq!(b.get_gecko().image.repeat_count, 1);
    let mut c = bg();
    c.gecko.image.repeat_count = 5;
    b.copy_background_repeat_from(&c);
    assert_eq!(b.get_gecko().image.repeat_count, 1);
    assert_eq!(b.get_gecko().image.layers[0].repeat, Repeat { x_repeat: 3, y_repeat: 3 });
    c.gecko.image.repeat_count = 0;
    b.copy_background_repeat_from(&c);
    assert_eq!(b.get_gecko().image.repeat_count, 0);
}

#[test]
fn background_clip_origin_attachment() {
    let mut b = bg();
    b.set_background_clip(BackgroundBox::ContentBox);
    b.set_background_origin(BackgroundBox::BorderBox);
    b.set_background_attachment(BackgroundAttachment::Local);
    let l = &b.get_gecko().image.layers[0];
    assert_eq!((l.clip, l.origin, l.attachment), (2, 0, 2));
    let mut c = bg();
    c.gecko.image.clip_count = 0;
    c.gecko.image.origin_count = 3;
    c.gecko.image.attachment_count = 1;
    c.copy_background_clip_from(&b);
    c.copy_background_origin_from(&b);
    c.copy_background_attachment_from(&b);
    let l = &c.get_gecko().image.layers[0];
    assert_eq!((l.clip, l.origin, l.attachment), (2, 0, 2));
    assert_eq!(c.get_gecko().image.clip_count, 1);
    let mut d = bg();
    d.gecko.image.clip_count = 0;
    b.copy_background_clip_from(&d);
    assert_eq!(b.get_gecko().image.clip_count, 0);
    assert_eq!(b.get_gecko().image.layers[0].clip, 0);
}

#[test]
fn background_position_roundtrip_and_copy() {
    let mut b = bg();
    let p = Position {
        horizontal: LengthOrPercentage::Length(Au(60)),
        vertical: LengthOrPercentage::Percentage(CssFloat(0x3f800000)),
    };
    b.set_background_position(p);
    assert_eq!(b.clone_background_position(), p);
    assert_eq!(b.get_gecko().image.position_x_count, 1);
    let mut c = bg();
    c.gecko.image.position_x_count = 0;
    c.gecko.image.position_y_count = 9;
    b.copy_background_position_from(&c);
    assert_eq!(b.get_gecko().image.position_x_count, 0);
    assert_eq!(b.get_gecko().image.position_y_count, 1);
    assert_eq!(
        b.clone_background_position(),
        Position {
            horizontal: LengthOrPercentage::Percentage(CssFloat(0)),
            vertical: LengthOrPercentage::Percentage(CssFloat(0)),
        }
    );
}

#[test]
fn background_position_calc_forms() {
    let mut b = bg();
    let calc = LengthOrPercentage::Calc(CalcLengthOrPercentage { length: Au(5), percentage: Some(CssFloat(0x3f000000)) });
    let no_percent = LengthOrPercentage::Calc(CalcLengthOrPercentage { length: Au(7), percentage: None });
    b.set_background_position(Position { horizontal: calc, vertical: no_percent });
    let p = b.clone_background_position();
    assert_eq!(p.horizontal, calc);
    assert_eq!(p.vertical, LengthOrPercentage::Length(Au(7)));
    assert_eq!(
        b.get_gecko().image.layers[0].position.x_position,
        CalcValue { length: 5, percent: CssFloat(0x3f000000), has_percent: true }
    );
}

#[test]
fn background_color() {
    let mut b = bg();
    let c = Rgba { red: 1, green: 2, blue: 3, alpha: 255 };
    b.set_background_color(Color::Rgba(c));
    assert_eq!(b.clone_background_color(), Color::Rgba(c));
    let mut d = bg();
    d.copy_background_color_from(&b);
    assert_eq!(d.clone_background_color(), Color::Rgba(c));
    b.set_background_color(Color::CurrentColor);
    assert_eq!(b.get_gecko().background_color, 0);
}

fn gradient() -> Image {
    Image::LinearGradient(Gradient {
        stops: vec![
            ColorStop { color: Color::Rgba(Rgba { red: 255, green: 0, blue: 0, alpha: 255 }), position: None },
            ColorStop { color: Color::CurrentColor, position: Some(LengthOrPercentage::Length(Au(120))) },
        ],
        angle_or_corner: AngleOrCorner::Angle(CssFloat(0x3fc90fdb)),
    })
}

#[test]
fn background_image_gradient_layers() {
    let mut b = bg();
    b.set_background_repeat(BackgroundRepeat::NoRepeat);
    b.set_background_clip(BackgroundBox::ContentBox);
    let extra = UrlExtraData { base: 0, referrer: 0, principal: 0 };
    b.set_background_image(vec![Some(gradient()), Some(Image::Url("a.png".to_string(), extra)), None]);
    let layers = &b.get_gecko().image.layers;
    assert_eq!(layers.len(), 3);
    assert_eq!(b.get_gecko().image.image_count, 3);
    match &layers[0].image {
        StyleImage::Gradient(g) => {
            assert_eq!(g.stops.len(), 2);
            assert_eq!(g.stops[0].color, 0xFF0000FF);
            assert_eq!(g.stops[0].location.as_value(), CoordDataValue::NoneValue);
            assert_eq!(g.stops[1].color, 0);
            assert_eq!(g.stops[1].location.as_value(), CoordDataValue::Coord(120));
            assert!(!g.stops[1].is_interpolation_hint);
            assert_eq!(g.angle.as_value(), CoordDataValue::Radian(CssFloat(0x3fc90fdb)));
            assert_eq!(g.shape, 0);
            assert_eq!(g.size, 3);
        }
        StyleImage::Null => panic!("expected a gradient"),
    }
    assert!(matches!(layers[1].image, StyleImage::Null));
    assert!(matches!(layers[2].image, StyleImage::Null));
    // Initializing the layers put the repeat back and kept the clip.
    assert_eq!(layers[0].repeat, Repeat { x_repeat: 3, y_repeat: 3 });
    assert_eq!(layers[0].clip, 2);
    assert_eq!(layers[2].clip, 0);
}

#[test]
fn background_image_fewer_images_clears_other_layers() {
    let mut b = bg();
    b.set_background_image(vec![Some(gradient()), Some(gradient())]);
    b.gecko.image.image_count = 7;
    b.set_background_image(vec![None]);
    assert_eq!(b.get_gecko().image.layers.len(), 2);
    assert_eq!(b.get_gecko().image.image_count, 7);
    assert!(b.get_gecko().image.layers.iter().all(|l| matches!(l.image, StyleImage::Null)));
}

#[test]
fn background_image_corner_gradient_has_no_angle() {
    let mut b = bg();
    b.set_background_image(vec![Some(Image::LinearGradient(Gradient {
        stops: vec![],
        angle_or_corner: AngleOrCorner::Corner(HorizontalDirection::Left, VerticalDirection::Bottom),
    }))]);
    match &b.get_gecko().image.layers[0].image {
        StyleImage::Gradient(g) => {
            assert_eq!(g.angle.as_value(), CoordDataValue::Null);
            assert!(g.stops.is_empty());
        }
        StyleImage::Null => panic!("expected a gradient"),
    }
    let mut c = bg();
    c.copy_background_image_from(&b);
    assert!(matches!(c.get_gecko().image.layers[0].image, StyleImage::Gradient(_)));
}

#[test]
fn inherit_from_takes_inherited_structs_from_parent() {
    let initial = ComputedValues::initial();
    let mut parent = initial.clone();
    parent.mutate_font().set_font_size(Au(1500));
    parent.mutate_border().set_border_top_style(BorderStyle::Double);
    parent.set_writing_mode(WritingMode(3));
    parent.set_root_font_size(Au(1000));
    let parent = Arc::new(parent);
    let child = ComputedValues::inherit_from(&parent, &initial);
    assert_eq!(child.get_font().clone_font_size(), Au(1500));
    assert_eq!(child.get_border().clone_border_top_style(), BorderStyle::None_);
    assert_eq!(child.writing_mode, WritingMode(3));
    assert_eq!(child.root_font_size(), Au(1000));
    let text = ComputedValues::style_for_child_text_node(&parent, &initial);
    assert_eq!(text.get_font().clone_font_size(), Au(1500));
    assert!(!text.is_multicol());
}

#[test]
fn mutate_copies_shared_struct() {
    let a = ComputedValues::initial();
    let mut b = a.clone();
    b.mutate_border().set_border_left_style(BorderStyle::Solid);
    assert_eq!(a.get_border().clone_border_left_style(), BorderStyle::None_);
    assert_eq!(b.get_border().clone_border_left_style(), BorderStyle::Solid);
    let shared: Arc<GeckoBorder> = b.clone_border();
    assert_eq!(shared.clone_border_left_style(), BorderStyle::Solid);
    assert!(b.custom_properties().is_none());
    assert!(b.is_shareable());
}

#[test]
fn style_struct_names() {
    let b = style::style_structs::Border::initial();
    assert_eq!(b.clone_border_top_style(), BorderStyle::None_);
    let f = style::style_structs::Font::initial();
    assert_eq!(f.clone_font_size(), Au(960));
}

#[test]
fn inherit_twice_keeps_parent_font() {
    let initial = ComputedValues::initial();
    let mut parent = initial.clone();
    parent.mutate_font().set_font_size(Au(777));
    parent.mutate_margin().set_margin_top(style::coord::LengthOrPercentageOrAuto::Auto);
    let parent = Arc::new(parent);
    let child = ComputedValues::inherit_from(&parent, &initial);
    let grandchild = ComputedValues::inherit_from(&child, &initial);
    assert_eq!(grandchild.get_font().clone_font_size(), Au(777));
    assert_eq!(grandchild.get_margin().clone_margin_top(), style::coord::LengthOrPercentageOrAuto::Length(Au(0)));
}

#[test]
fn initial_values_hold_initial_structs() {
    let v = ComputedValues::initial();
    assert_eq!(v.get_pointing().get_gecko().cursor, 1);
    assert_eq!(v.get_border().clone_border_top_style(), BorderStyle::None_);
    assert_eq!(v.get_font().clone_font_size(), Au(960));
    assert_eq!(v.get_background().get_gecko().image.layers.len(), 1);
    assert_eq!(v.root_font_size(), Au(960));
}
