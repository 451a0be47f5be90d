//! The box style struct: Gecko's `nsStyleDisplay` and its accessors.
use vstd::prelude::*;
use std::sync::Arc;
use crate::coord::{StyleCoord, CoordDataValue, LengthOrPercentage, spec_lop_to_coord, spec_lop_from_coord};
use crate::keywords::{Display, Overflow, VerticalAlignKeyword, spec_display_to_gecko, spec_display_from_gecko,
    spec_overflow_to_gecko, spec_overflow_from_gecko, spec_vertical_align_keyword_to_gecko,
    spec_vertical_align_keyword_from_gecko};
use crate::consts;

verus! {

/// A computed `overflow-y`: the same keywords as `overflow-x`.
#[derive(Clone, Copy, Debug, PartialEq, Eq, Structural)]
pub struct OverflowY(pub Overflow);

/// A computed `vertical-align`: a keyword or a `<length-percentage>`.
#[derive(Clone, Copy, Debug, PartialEq, Eq, Structural)]
pub enum VerticalAlign {
    Keyword(VerticalAlignKeyword),
    LengthOrPercentage(LengthOrPercentage),
}

/// A computed `page-break-before` / `page-break-after` keyword.
#[derive(Clone, Copy, Debug, PartialEq, Eq, Structural)]
pub enum PageBreak {
    Auto,
    Always,
    Avoid,
    Left,
    Right,
}

/// The document and security context a URL was parsed in, as handles that
/// Gecko keeps alive.
#[derive(Clone, Copy, Debug, PartialEq, Eq, Structural)]
pub struct UrlExtraData {
    pub base: u64,
    pub referrer: u64,
    pub principal: u64,
}

/// A computed `-moz-binding`: none, or a URL with its extra data.
#[derive(Debug)]
pub enum MozBinding {
    None_,
    Url(String, UrlExtraData),
}

/// The binding Gecko stores: its URL and extra data.
#[derive(Debug)]
pub struct BindingUrl {
    pub url: String,
    pub extra_data: UrlExtraData,
}

impl Clone for BindingUrl {
    fn clone(&self) -> (r: Self)
        ensures
            r.url@ == self.url@,
            r.extra_data == self.extra_data,
    {
        BindingUrl { url: self.url.clone(), extra_data: self.extra_data }
    }
}

/// Gecko's `nsStyleDisplay`, as far as the style system reads and writes it.
#[derive(Debug)]
pub struct NsStyleDisplay {
    pub display: u8,
    pub overflow_y: u8,
    pub vertical_align: StyleCoord,
    pub binding: Option<BindingUrl>,
    pub break_before: bool,
    pub break_after: bool,
}

/// The box style struct.
#[derive(Debug)]
pub struct GeckoBox {
    pub gecko: NsStyleDisplay,
}

/// The coordinate stored for a `vertical-align` value.
pub open spec fn spec_vertical_align_to_coord(v: VerticalAlign) -> CoordDataValue {
    match v {
        VerticalAlign::Keyword(k) => CoordDataValue::Enumerated(spec_vertical_align_keyword_to_gecko(k)),
        VerticalAlign::LengthOrPercentage(l) => spec_lop_to_coord(l),
    }
}

/// The `vertical-align` value a stored coordinate stands for, if any: an
/// enumerated value must be a known keyword, anything else must be a length.
pub open spec fn spec_vertical_align_from_coord(v: CoordDataValue) -> Option<VerticalAlign> {
    match v {
        CoordDataValue::Enumerated(n) => match spec_vertical_align_keyword_from_gecko(n) {
            Some(k) => Some(VerticalAlign::Keyword(k)),
            None => None,
        },
        _ => match spec_lop_from_coord(v) {
            Some(l) => Some(VerticalAlign::LengthOrPercentage(l)),
            None => None,
        },
    }
}

/// Whether a page break keyword forces a break: `always`, `left` and `right` do.
pub open spec fn spec_page_break_flag(v: PageBreak) -> bool {
    match v {
        PageBreak::Auto => false,
        PageBreak::Always => true,
        PageBreak::Avoid => false,
        PageBreak::Left => true,
        PageBreak::Right => true,
    }
}

/// Whether a page break keyword forces a break: `always`, `left` and `right` do.
pub fn page_break_flag(v: PageBreak) -> (r: bool)
    ensures
        r == spec_page_break_flag(v),
{
    match v {
        PageBreak::Auto => false,
        PageBreak::Always => true,
        PageBreak::Avoid => false,
        PageBreak::Left => true,
        PageBreak::Right => true,
    }
}

impl GeckoBox {
    /// Whether the struct holds the initial values.
    pub open spec fn is_initial(self) -> bool {
        &&& self.gecko.display == consts::NS_STYLE_DISPLAY_INLINE
        &&& self.gecko.overflow_y == consts::NS_STYLE_OVERFLOW_VISIBLE
        &&& self.gecko.vertical_align.value == CoordDataValue::Enumerated(consts::NS_STYLE_VERTICAL_ALIGN_BASELINE)
        &&& self.gecko.binding is None
        &&& !self.gecko.break_before
        &&& !self.gecko.break_after
    }

    /// The initial box struct: `display: inline`, `overflow-y: visible`,
    /// `vertical-align: baseline`, no binding and no forced page breaks.
    pub fn initial() -> (r: Arc<GeckoBox>)
        ensures
            r.is_initial(),
    {
        Arc::new(GeckoBox {
            gecko: NsStyleDisplay {
                display: consts::NS_STYLE_DISPLAY_INLINE,
                overflow_y: consts::NS_STYLE_OVERFLOW_VISIBLE,
                vertical_align: StyleCoord { value: CoordDataValue::Enumerated(consts::NS_STYLE_VERTICAL_ALIGN_BASELINE) },
                binding: None,
                break_before: false,
                break_after: false,
            },
        })
    }

    /// The Gecko struct.
    pub fn get_gecko(&self) -> (r: &NsStyleDisplay)
        ensures
            *r == self.gecko,
    {
        &self.gecko
    }

    /// Whether every field but those named keeps its value.
    pub open spec fn same_except(old: Self, new: Self, display: bool, overflow_y: bool, vertical_align: bool,
        binding: bool, break_before: bool, break_after: bool) -> bool {
        &&& (display || new.gecko.display == old.gecko.display)
        &&& (overflow_y || new.gecko.overflow_y == old.gecko.overflow_y)
        &&& (vertical_align || new.gecko.vertical_align == old.gecko.vertical_align)
        &&& (binding || new.gecko.binding == old.gecko.binding)
        &&& (break_before || new.gecko.break_before == old.gecko.break_before)
        &&& (break_after || new.gecko.break_after == old.gecko.break_after)
    }

    /// Sets `display`.
    pub fn set_display(&mut self, v: Display)
        ensures
            final(self).gecko.display == spec_display_to_gecko(v),
            Self::same_except(*old(self), *final(self), true, false, false, false, false, false),
    {
        self.gecko.display = v.to_gecko();
    }

    /// Copies `display` of another struct.
    pub fn copy_display_from(&mut self, other: &Self)
        ensures
            final(self).gecko.display == other.gecko.display,
            Self::same_except(*old(self), *final(self), true, false, false, false, false, false),
    {
        self.gecko.display = other.gecko.display;
    }

    /// The computed `display`; the stored value must be a known keyword.
    pub fn clone_display(&self) -> (r: Display)
        requires
            spec_display_from_gecko(self.gecko.display) is Some,
        ensures
            Some(r) == spec_display_from_gecko(self.gecko.display),
    {
        match Display::from_gecko(self.gecko.display) {
            Some(k) => k,
            None => {
                assert(false);
                Display::Inline
            },
        }
    }

    /// Sets `overflow-y`.
    pub fn set_overflow_y(&mut self, v: OverflowY)
        ensures
            final(self).gecko.overflow_y == spec_overflow_to_gecko(v.0),
            Self::same_except(*old(self), *final(self), false, true, false, false, false, false),
    {
        self.gecko.overflow_y = v.0.to_gecko();
    }

    /// Copies `overflow-y` of another struct.
    pub fn copy_overflow_y_from(&mut self, other: &Self)
        ensures
            final(self).gecko.overflow_y == other.gecko.overflow_y,
            Self::same_except(*old(self), *final(self), false, true, false, false, false, false),
    {
        self.gecko.overflow_y = other.gecko.overflow_y;
    }

    /// The computed `overflow-y`; the stored value must be a known keyword.
    pub fn clone_overflow_y(&self) -> (r: OverflowY)
        requires
            spec_overflow_from_gecko(self.gecko.overflow_y) is Some,
        ensures
            Some(r.0) == spec_overflow_from_gecko(self.gecko.overflow_y),
    {
        match Overflow::from_gecko(self.gecko.overflow_y) {
            Some(k) => OverflowY(k),
            None => {
                assert(false);
                OverflowY(Overflow::Visible)
            },
        }
    }

    /// Sets `vertical-align`: a keyword is stored as an enumerated value.
    pub fn set_vertical_align(&mut self, v: VerticalAlign)
        ensures
            final(self).gecko.vertical_align.value == spec_vertical_align_to_coord(v),
            Self::same_except(*old(self), *final(self), false, false, true, false, false, false),
    {
        match v {
            VerticalAlign::Keyword(k) => self.gecko.vertical_align.set_value(CoordDataValue::Enumerated(k.to_gecko())),
            VerticalAlign::LengthOrPercentage(l) => l.to_gecko_style_coord(&mut self.gecko.vertical_align),
        }
    }

    /// The computed `vertical-align`; the stored coordinate must stand for one.
    pub fn clone_vertical_align(&self) -> (r: VerticalAlign)
        requires
            spec_vertical_align_from_coord(self.gecko.vertical_align.value) is Some,
        ensures
            Some(r) == spec_vertical_align_from_coord(self.gecko.vertical_align.value),
    {
        match self.gecko.vertical_align.as_value() {
            CoordDataValue::Enumerated(n) => match VerticalAlignKeyword::from_gecko(n) {
                Some(k) => VerticalAlign::Keyword(k),
                None => {
                    assert(false);
                    VerticalAlign::Keyword(VerticalAlignKeyword::Baseline)
                },
            },
            _ => match LengthOrPercentage::from_gecko_style_coord(&self.gecko.vertical_align) {
                Some(l) => VerticalAlign::LengthOrPercentage(l),
                None => {
                    assert(false);
                    VerticalAlign::Keyword(VerticalAlignKeyword::Baseline)
                },
            },
        }
    }

    /// Copies `vertical-align` of another struct.
    pub fn copy_vertical_align_from(&mut self, other: &Self)
        ensures
            final(self).gecko.vertical_align == other.gecko.vertical_align,
            Self::same_except(*old(self), *final(self), false, false, true, false, false, false),
    {
        self.gecko.vertical_align.copy_from(&other.gecko.vertical_align);
    }

    /// Sets `-moz-binding`: a URL is stored with its extra data; `none`
    /// leaves the struct as it is.
    pub fn set__moz_binding(&mut self, v: MozBinding)
        ensures
            match v {
                MozBinding::None_ => Self::same_except(*old(self), *final(self), false, false, false, false, false, false),
                MozBinding::Url(url, extra) => {
                    &&& final(self).gecko.binding matches Some(b) && b.url@ == url@ && b.extra_data == extra
                    &&& Self::same_except(*old(self), *final(self), false, false, false, true, false, false)
                },
            },
    {
        match v {
            MozBinding::None_ => {},
            MozBinding::Url(url, extra_data) => {
                self.gecko.binding = Some(BindingUrl { url, extra_data });
            },
        }
    }

    /// Copies `-moz-binding` of another struct.
    pub fn copy__moz_binding_from(&mut self, other: &Self)
        ensures
            match other.gecko.binding {
                None => final(self).gecko.binding is None,
                Some(b) => final(self).gecko.binding matches Some(c) && c.url@ == b.url@ && c.extra_data == b.extra_data,
            },
            Self::same_except(*old(self), *final(self), false, false, false, true, false, false),
    {
        self.gecko.binding = match &other.gecko.binding {
            None => None,
            Some(b) => Some(b.clone()),
        };
    }

    /// Sets `page-break-before`: `always`, `left` and `right` force a break.
    pub fn set_page_break_before(&mut self, v: PageBreak)
        ensures
            final(self).gecko.break_before == spec_page_break_flag(v),
            Self::same_except(*old(self), *final(self), false, false, false, false, true, false),
    {
        self.gecko.break_before = page_break_flag(v);
    }

    /// Copies the break-before flag of another struct.
    pub fn copy_page_break_before_from(&mut self, other: &Self)
        ensures
            final(self).gecko.break_before == other.gecko.break_before,
            Self::same_except(*old(self), *final(self), false, false, false, false, true, false),
    {
        self.gecko.break_before = other.gecko.break_before;
    }

    /// Sets `page-break-after`: `always`, `left` and `right` force a break.
    /// The flag this writes is the break-before flag, the same one that
    /// `set_page_break_before` writes; the break-after flag is written only
    /// by `copy_page_break_after_from`.
    pub fn set_page_break_after(&mut self, v: PageBreak)
        ensures
            final(self).gecko.break_before == spec_page_break_flag(v),
            Self::same_except(*old(self), *final(self), false, false, false, false, true, false),
    {
        self.gecko.break_before = page_break_flag(v);
    }

    /// Copies the break-after flag of another struct.
    pub fn copy_page_break_after_from(&mut self, other: &Self)
        ensures
            final(self).gecko.break_after == other.gecko.break_after,
            Self::same_except(*old(self), *final(self), false, false, false, false, false, true),
    {
        self.gecko.break_after = other.gecko.break_after;
    }
}

/// Whether two optional bindings are the same URL with the same extra data.
pub open spec fn same_binding(a: Option<BindingUrl>, b: Option<BindingUrl>) -> bool {
    match (a, b) {
        (None, None) => true,
        (Some(x), Some(y)) => x.url@ == y.url@ && x.extra_data == y.extra_data,
        _ => false,
    }
}

impl GeckoBox {
    /// Whether two structs hold the same values.
    pub open spec fn same_as(self, other: Self) -> bool {
        &&& self.gecko.display == other.gecko.display
        &&& self.gecko.overflow_y == other.gecko.overflow_y
        &&& self.gecko.vertical_align == other.gecko.vertical_align
        &&& same_binding(self.gecko.binding, other.gecko.binding)
        &&& self.gecko.break_before == other.gecko.break_before
        &&& self.gecko.break_after == other.gecko.break_after
    }
}

impl Clone for GeckoBox {
    fn clone(&self) -> (r: Self)
        ensures
            r.same_as(*self),
    {
        GeckoBox {
            gecko: NsStyleDisplay {
                display: self.gecko.display,
                overflow_y: self.gecko.overflow_y,
                vertical_align: self.gecko.vertical_align,
                binding: match &self.gecko.binding {
                    None => None,
                    Some(b) => Some(b.clone()),
                },
                break_before: self.gecko.break_before,
                break_after: self.gecko.break_after,
            },
        }
    }
}

/// A page break keyword forces a break exactly when it is `always`, `left`
/// or `right`.
pub proof fn lemma_page_break_forces(v: PageBreak)
    ensures
        spec_page_break_flag(v) <==> (v == PageBreak::Always || v == PageBreak::Left || v == PageBreak::Right),
{
}

/// A `vertical-align` keyword is stored as its Gecko constant in the
/// enumerated unit, and a length or percentage as that coordinate.
pub proof fn lemma_vertical_align_units(k: VerticalAlignKeyword, l: LengthOrPercentage)
    ensures
        spec_vertical_align_to_coord(VerticalAlign::Keyword(k))
            == CoordDataValue::Enumerated(spec_vertical_align_keyword_to_gecko(k)),
        spec_vertical_align_to_coord(VerticalAlign::LengthOrPercentage(l)) == spec_lop_to_coord(l),
{
}

/// Storing a `vertical-align` value and reading it back gives it back.
pub proof fn lemma_vertical_align_roundtrip(v: VerticalAlign)
    ensures
        spec_vertical_align_from_coord(spec_vertical_align_to_coord(v)) == Some(v),
{
    match v {
        VerticalAlign::Keyword(k) => {
            crate::keywords::lemma_vertical_align_keyword_roundtrip(k, 0);
        },
        VerticalAlign::LengthOrPercentage(l) => {},
    }
}

/// Storing a `display` or `overflow-y` keyword and reading it back gives it back.
pub proof fn lemma_box_keywords_roundtrip(d: Display, o: Overflow)
    ensures
        spec_display_from_gecko(spec_display_to_gecko(d)) == Some(d),
        spec_overflow_from_gecko(spec_overflow_to_gecko(o)) == Some(o),
{
    crate::keywords::lemma_display_roundtrip(d, 0);
    crate::keywords::lemma_overflow_roundtrip(o, 0);
}

} // verus!
