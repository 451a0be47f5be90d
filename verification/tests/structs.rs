use style::box_struct::{GeckoBox, MozBinding, OverflowY, PageBreak, UrlExtraData, VerticalAlign};
use style::color::{Color, Rgba};
use style::color_struct::GeckoColor;
use style::column::GeckoColumn;
use style::coord::{CoordDataValue, CssFloat, LengthOrPercentage, LengthOrPercentageOrAuto};
use style::font::{generic_family_from_name, FontFamily, FontFamilyType, FontWeight, GeckoFont, GenericFamily};
use style::inherited_text::{GeckoInheritedText, LineHeight};
use style::keywords::{Display, FontStyle, ListStyleType, Overflow, TextAlign, VerticalAlignKeyword};
use style::list::GeckoList;
use style::margin::GeckoMargin;
use style::padding::GeckoPadding;
use style::pointing::{Cursor, CursorValue, GeckoPointing};
use style::position::{BoxSizing, GeckoPosition, StyleBoxSizing, ZIndex};
use style::svg::GeckoSVG;
use style::text::{GeckoText, TextDecorationLine};
use style::units::Au;

#[test]
fn margin_sides() {
    let mut m = (*GeckoMargin::initial()).clone();
    m.set_margin_left(LengthOrPercentageOrAuto::Auto);
    m.set_margin_top(LengthOrPercentageOrAuto::Length(Au(600)));
    assert_eq!(m.clone_margin_left(), LengthOrPercentageOrAuto::Auto);
    assert_eq!(m.clone_margin_top(), LengthOrPercentageOrAuto::Length(Au(600)));
    assert_eq!(m.clone_margin_right(), LengthOrPercentageOrAuto::Length(Au(0)));
    let mut n = (*GeckoMargin::initial()).clone();
    n.copy_margin_top_from(&m);
    assert_eq!(n.clone_margin_top(), LengthOrPercentageOrAuto::Length(Au(600)));
    assert_eq!(n.clone_margin_left(), LengthOrPercentageOrAuto::Length(Au(0)));
}

#[test]
fn padding_sides() {
    let mut p = (*GeckoPadding::initial()).clone();
    p.set_padding_bottom(LengthOrPercentage::Percentage(CssFloat(0x3dcccccd)));
    assert_eq!(p.clone_padding_bottom(), LengthOrPercentage::Percentage(CssFloat(0x3dcccccd)));
    assert_eq!(p.get_gecko().padding[2].as_value(), CoordDataValue::Percent(CssFloat(0x3dcccccd)));
}

#[test]
fn position_offsets_z_index_box_sizing() {
    let mut p = (*GeckoPosition::initial()).clone();
    assert_eq!(p.clone_top(), LengthOrPercentageOrAuto::Auto);
    p.set_left(LengthOrPercentageOrAuto::Length(Au(-60)));
    assert_eq!(p.clone_left(), LengthOrPercentageOrAuto::Length(Au(-60)));
    assert_eq!(p.clone_z_index(), ZIndex::Auto);
    p.set_z_index(ZIndex::Number(-3));
    assert_eq!(p.clone_z_index(), ZIndex::Number(-3));
    p.gecko.z_index.set_value(CoordDataValue::Coord(5));
    assert_eq!(p.clone_z_index(), ZIndex::Number(0));
    p.set_box_sizing(BoxSizing::BorderBox);
    assert_eq!(p.get_gecko().box_sizing, StyleBoxSizing::Border);
    let mut q = (*GeckoPosition::initial()).clone();
    q.copy_box_sizing_from(&p);
    q.copy_z_index_from(&p);
    assert_eq!(q.get_gecko().box_sizing, StyleBoxSizing::Border);
    assert_eq!(q.get_gecko().z_index.as_value(), CoordDataValue::Coord(5));
}

#[test]
fn font_family_list() {
    let mut f = (*GeckoFont::initial()).clone();
    f.set_font_family(vec![
        FontFamily::FamilyName("Fira Sans".to_string()),
        FontFamily::Generic(GenericFamily::Monospace),
    ]);
    let list = &f.get_gecko().font.fontlist;
    assert_eq!(list.len(), 2);
    assert_eq!(list[0].family_type, FontFamilyType::Named);
    assert_eq!(list[0].name, "Fira Sans");
    assert_eq!(list[1].family_type, FontFamilyType::Monospace);
    assert_eq!(list[1].name, "");
    let mut g = (*GeckoFont::initial()).clone();
    g.copy_font_family_from(&f);
    assert_eq!(g.get_gecko().font.fontlist.len(), 2);
    assert_eq!(g.get_gecko().font.fontlist[0].name, "Fira Sans");
    f.set_font_family(vec![]);
    assert!(f.get_gecko().font.fontlist.is_empty());
}

#[test]
fn font_size_weight_style() {
    let mut f = (*GeckoFont::initial()).clone();
    assert_eq!(f.clone_font_size(), Au(960));
    f.set_font_size(Au(1200));
    assert_eq!(f.clone_font_size(), Au(1200));
    assert_eq!(f.get_gecko().font.size, 1200);
    let mut g = (*GeckoFont::initial()).clone();
    g.copy_font_size_from(&f);
    assert_eq!(g.clone_font_size(), Au(1200));
    assert_eq!(g.get_gecko().font.size, 1200);
    assert_eq!(f.clone_font_weight(), FontWeight::Weight400);
    f.set_font_weight(FontWeight::Weight700);
    assert_eq!(f.get_gecko().font.weight, 700);
    assert_eq!(f.clone_font_weight(), FontWeight::Weight700);
    g.copy_font_weight_from(&f);
    assert_eq!(g.clone_font_weight(), FontWeight::Weight700);
    f.set_font_style(FontStyle::Italic);
    assert_eq!(f.get_gecko().font.style, 1);
    g.copy_font_style_from(&f);
    assert_eq!(g.get_gecko().font.style, 1);
    f.compute_font_hash();
    assert_eq!(f.clone_font_size(), Au(1200));
}

#[test]
fn box_display_overflow_vertical_align() {
    let mut b = (*GeckoBox::initial()).clone();
    assert_eq!(b.clone_display(), Display::Inline);
    b.set_display(Display::Flex);
    assert_eq!(b.clone_display(), Display::Flex);
    b.set_overflow_y(OverflowY(Overflow::Scroll));
    assert_eq!(b.clone_overflow_y(), OverflowY(Overflow::Scroll));
    assert_eq!(b.clone_vertical_align(), VerticalAlign::Keyword(VerticalAlignKeyword::Baseline));
    b.set_vertical_align(VerticalAlign::Keyword(VerticalAlignKeyword::TextTop));
    assert_eq!(b.get_gecko().vertical_align.as_value(), CoordDataValue::Enumerated(18));
    assert_eq!(b.clone_vertical_align(), VerticalAlign::Keyword(VerticalAlignKeyword::TextTop));
    let l = VerticalAlign::LengthOrPercentage(LengthOrPercentage::Length(Au(-120)));
    b.set_vertical_align(l);
    assert_eq!(b.clone_vertical_align(), l);
    let mut c = (*GeckoBox::initial()).clone();
    c.copy_vertical_align_from(&b);
    c.copy_display_from(&b);
    c.copy_overflow_y_from(&b);
    assert_eq!(c.clone_vertical_align(), l);
    assert_eq!(c.clone_display(), Display::Flex);
    assert_eq!(c.clone_overflow_y(), OverflowY(Overflow::Scroll));
}

#[test]
fn page_breaks_map_to_flags() {
    let mut b = (*GeckoBox::initial()).clone();
    b.set_page_break_before(PageBreak::Left);
    assert!(b.get_gecko().break_before);
    b.set_page_break_before(PageBreak::Avoid);
    assert!(!b.get_gecko().break_before);
    b.set_page_break_after(PageBreak::Always);
    assert!(b.get_gecko().break_before);
    assert!(!b.get_gecko().break_after);
    b.set_page_break_after(PageBreak::Auto);
    assert!(!b.get_gecko().break_before);
    let mut c = (*GeckoBox::initial()).clone();
    c.gecko.break_after = true;
    b.copy_page_break_after_from(&c);
    assert!(b.get_gecko().break_after);
    b.copy_page_break_before_from(&c);
    assert!(!b.get_gecko().break_before);
}

#[test]
fn moz_binding_url_and_none() {
    let mut b = (*GeckoBox::initial()).clone();
    let extra = UrlExtraData { base: 1, referrer: 2, principal: 3 };
    b.set__moz_binding(MozBinding::Url("chrome://x.xml#y".to_string(), extra));
    let bound = b.get_gecko().binding.as_ref().unwrap();
    assert_eq!(bound.url, "chrome://x.xml#y");
    assert_eq!(bound.extra_data, extra);
    b.set__moz_binding(MozBinding::None_);
    assert!(b.get_gecko().binding.is_some());
    let mut c = (*GeckoBox::initial()).clone();
    c.copy__moz_binding_from(&b);
    assert_eq!(c.get_gecko().binding.as_ref().unwrap().url, "chrome://x.xml#y");
    let d = (*GeckoBox::initial()).clone();
    c.copy__moz_binding_from(&d);
    assert!(c.get_gecko().binding.is_none());
}

#[test]
fn list_style_type() {
    let mut l = (*GeckoList::initial()).clone();
    l.set_list_style_type(ListStyleType::Decimal);
    assert_eq!(l.get_gecko().list_style_type, ListStyleType::Decimal.to_gecko());
    let mut m = (*GeckoList::initial()).clone();
    m.copy_list_style_type_from(&l);
    assert_eq!(m.get_gecko().list_style_type, ListStyleType::Decimal.to_gecko());
}

#[test]
fn line_height_and_word_spacing() {
    let mut t = (*GeckoInheritedText::initial()).clone();
    assert_eq!(t.clone_line_height(), LineHeight::Normal);
    for v in [LineHeight::Length(Au(900)), LineHeight::Number(CssFloat(0x3fc00000)), LineHeight::MozBlockHeight] {
        t.set_line_height(v);
        assert_eq!(t.clone_line_height(), v);
    }
    t.gecko.line_height.set_value(CoordDataValue::Enumerated(7));
    assert_eq!(t.clone_line_height(), LineHeight::MozBlockHeight);
    t.set_word_spacing(None);
    assert_eq!(t.get_gecko().word_spacing.as_value(), CoordDataValue::Coord(0));
    t.set_word_spacing(Some(LengthOrPercentage::Length(Au(30))));
    assert_eq!(t.get_gecko().word_spacing.as_value(), CoordDataValue::Coord(30));
    t.set_text_align(TextAlign::Justify);
    assert_eq!(t.get_gecko().text_align, 4);
    let mut u = (*GeckoInheritedText::initial()).clone();
    u.copy_word_spacing_from(&t);
    u.copy_line_height_from(&t);
    u.copy_text_align_from(&t);
    assert_eq!(u.get_gecko().word_spacing.as_value(), CoordDataValue::Coord(30));
    assert_eq!(u.get_gecko().text_align, 4);
}

#[test]
fn text_decoration_lines() {
    let mut t = (*GeckoText::initial()).clone();
    t.set_text_decoration_line(TextDecorationLine { underline: true, overline: false, line_through: true });
    assert_eq!(t.get_gecko().text_decoration_line, 0x05);
    assert!(t.has_underline());
    assert!(!t.has_overline());
    assert!(t.has_line_through());
    let mut u = (*GeckoText::initial()).clone();
    u.copy_text_decoration_line_from(&t);
    assert!(u.has_line_through());
    t.set_text_decoration_line(TextDecorationLine { underline: false, overline: true, line_through: false });
    assert_eq!(t.get_gecko().text_decoration_line, 0x02);
    assert!(t.has_overline() && !t.has_underline() && !t.has_line_through());
}

#[test]
fn text_decoration_color() {
    let mut t = (*GeckoText::initial()).clone();
    assert_eq!(t.clone_text_decoration_color(), Color::CurrentColor);
    let c = Rgba { red: 200, green: 100, blue: 50, alpha: 255 };
    t.set_text_decoration_color(Color::Rgba(c));
    assert_eq!(t.clone_text_decoration_color(), Color::Rgba(c));
    assert_eq!(t.get_gecko().text_decoration_style, 3);
    let mut u = (*GeckoText::initial()).clone();
    u.copy_text_decoration_color_from(&t);
    assert_eq!(u.clone_text_decoration_color(), Color::Rgba(c));
}

#[test]
fn svg_colors() {
    let mut s = (*GeckoSVG::initial()).clone();
    s.set_flood_color(Color::CurrentColor);
    assert_eq!(s.get_gecko().flood_color, 0);
    s.set_stop_color(Color::Rgba(Rgba { red: 1, green: 0, blue: 0, alpha: 2 }));
    assert_eq!(s.get_gecko().stop_color, 0x02000001);
    s.set_lighting_color(Color::Rgba(Rgba { red: 0, green: 0, blue: 3, alpha: 0 }));
    let mut t = (*GeckoSVG::initial()).clone();
    t.copy_stop_color_from(&s);
    t.copy_lighting_color_from(&s);
    t.copy_flood_color_from(&s);
    assert_eq!(t.get_gecko().stop_color, 0x02000001);
    assert_eq!(t.get_gecko().lighting_color, 0x00030000);
    assert_eq!(t.get_gecko().flood_color, 0);
}

#[test]
fn foreground_color() {
    let mut c = (*GeckoColor::initial()).clone();
    assert_eq!(c.clone_color(), Rgba { red: 0, green: 0, blue: 0, alpha: 255 });
    let v = Rgba { red: 12, green: 34, blue: 56, alpha: 78 };
    c.set_color(v);
    assert_eq!(c.clone_color(), v);
    let mut d = (*GeckoColor::initial()).clone();
    d.copy_color_from(&c);
    assert_eq!(d.clone_color(), v);
}

#[test]
fn cursor_constants() {
    let mut p = (*GeckoPointing::initial()).clone();
    p.set_cursor(CursorValue::SpecifiedCursor(Cursor::Pointer));
    assert_eq!(p.get_gecko().cursor, 4);
    p.set_cursor(CursorValue::SpecifiedCursor(Cursor::Progress));
    assert_eq!(p.get_gecko().cursor, 3);
    p.set_cursor(CursorValue::AutoCursor);
    assert_eq!(p.get_gecko().cursor, 1);
    p.set_cursor(CursorValue::SpecifiedCursor(Cursor::ZoomOut));
    let mut q = (*GeckoPointing::initial()).clone();
    q.copy_cursor_from(&p);
    assert_eq!(q.get_gecko().cursor, 25);
}

#[test]
fn column_width() {
    let mut c = (*GeckoColumn::initial()).clone();
    c.set_column_width(Some(Au(600)));
    assert_eq!(c.get_gecko().column_width.as_value(), CoordDataValue::Coord(600));
    let mut d = (*GeckoColumn::initial()).clone();
    d.copy_column_width_from(&c);
    assert_eq!(d.get_gecko().column_width.as_value(), CoordDataValue::Coord(600));
    c.set_column_width(None);
    assert_eq!(c.get_gecko().column_width.as_value(), CoordDataValue::Auto);
}

#[test]
fn page_break_after_writes_the_break_before_flag() {
    let mut b = (*GeckoBox::initial()).clone();
    b.set_page_break_after(PageBreak::Right);
    assert!(b.get_gecko().break_before);
    assert!(!b.get_gecko().break_after);
    let mut c = (*GeckoBox::initial()).clone();
    c.copy_page_break_after_from(&b);
    assert!(!c.get_gecko().break_after);
    c.copy_page_break_before_from(&b);
    assert!(c.get_gecko().break_before);
}

#[test]
fn generic_family_names() {
    assert_eq!(generic_family_from_name("serif"), Some(GenericFamily::Serif));
    assert_eq!(generic_family_from_name("sans-serif"), Some(GenericFamily::SansSerif));
    assert_eq!(generic_family_from_name("cursive"), Some(GenericFamily::Cursive));
    assert_eq!(generic_family_from_name("fantasy"), Some(GenericFamily::Fantasy));
    assert_eq!(generic_family_from_name("monospace"), Some(GenericFamily::Monospace));
    assert_eq!(generic_family_from_name("Serif"), None);
    assert_eq!(generic_family_from_name("serif "), None);
    assert_eq!(generic_family_from_name(""), None);
}

#[test]
fn zero_border_width_needs_no_device_pixel_size() {
    let mut b = (*style::border::GeckoBorder::initial()).clone();
    b.gecko.twips_per_pixel = 0;
    b.set_border_top_width(Au(0));
    assert_eq!(b.clone_border_top_width(), Au(0));
    assert!(!b.border_top_has_nonzero_width());
}

#[test]
fn text_decoration_style_keeps_color_flag() {
    let mut t = (*GeckoText::initial()).clone();
    t.set_text_decoration_style(style::keywords::TextDecorationStyle::Wavy);
    assert_eq!(t.get_gecko().text_decoration_style, 0x25);
    assert_eq!(t.clone_text_decoration_style(), style::keywords::TextDecorationStyle::Wavy);
    assert_eq!(t.clone_text_decoration_color(), Color::CurrentColor);
    let mut u = (*GeckoText::initial()).clone();
    u.copy_text_decoration_style_from(&t);
    assert_eq!(u.clone_text_decoration_style(), style::keywords::TextDecorationStyle::Wavy);
}

#[test]
fn border_width_with_negative_device_pixel_size() {
    let mut b = (*style::border::GeckoBorder::initial()).clone();
    b.gecko.twips_per_pixel = -60;
    b.set_border_top_width(Au(30));
    assert_eq!(b.clone_border_top_width(), Au(0));
    b.set_border_top_width(Au(-125));
    assert_eq!(b.clone_border_top_width(), Au(-60));
    b.set_border_top_width(Au(-200));
    assert_eq!(b.clone_border_top_width(), Au(-60));
}
