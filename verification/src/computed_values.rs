//! The computed values of an element: one shared style struct per group of
//! properties, plus the custom properties, the writing mode and the root
//! font size.
use vstd::prelude::*;
use std::sync::Arc;
use crate::units::Au;
use crate::background::GeckoBackground;
use crate::border::GeckoBorder;
use crate::box_struct::GeckoBox;
use crate::color_struct::GeckoColor;
use crate::column::GeckoColumn;
use crate::font::GeckoFont;
use crate::inherited_text::GeckoInheritedText;
use crate::list::GeckoList;
use crate::margin::GeckoMargin;
use crate::outline::GeckoOutline;
use crate::padding::GeckoPadding;
use crate::pointing::GeckoPointing;
use crate::position::GeckoPosition;
use crate::svg::GeckoSVG;
use crate::text::GeckoText;

verus! {

/// The computed custom properties: name and value of each.
#[derive(Debug)]
pub struct ComputedValuesMap {
    pub entries: Vec<(String, String)>,
}

/// The writing mode flags.
#[derive(Clone, Copy, Debug, PartialEq, Eq, Structural)]
pub struct WritingMode(pub u8);

impl WritingMode {
    /// No writing mode flag: horizontal, left to right.
    pub fn empty() -> (r: WritingMode)
        ensures
            r.0 == 0,
    {
        WritingMode(0)
    }
}

/// Calls `std::sync::Arc::clone`, taken on trust: the new pointer points to
/// the same value.
#[verifier::external_body]
fn arc_clone<T>(a: &Arc<T>) -> (r: Arc<T>)
    ensures
        *r == **a,
{
    Arc::clone(a)
}

/// Calls `std::sync::Arc::make_mut`, taken on trust: the reference is to the
/// value the pointer held, or to a clone of it made because the value was
/// shared; afterwards the pointer holds what was written through the reference.
#[verifier::external_body]
fn arc_make_mut<T: Clone>(a: &mut Arc<T>) -> (r: &mut T)
    ensures
        *r == **old(a) || cloned::<T>(**old(a), *r),
        **final(a) == *final(r),
{
    Arc::make_mut(a)
}

/// The computed values of an element.
#[derive(Debug)]
pub struct ComputedValues {
    pub background: Arc<GeckoBackground>,
    pub border: Arc<GeckoBorder>,
    pub box_: Arc<GeckoBox>,
    pub color: Arc<GeckoColor>,
    pub column: Arc<GeckoColumn>,
    pub font: Arc<GeckoFont>,
    pub inherited_text: Arc<GeckoInheritedText>,
    pub list: Arc<GeckoList>,
    pub margin: Arc<GeckoMargin>,
    pub outline: Arc<GeckoOutline>,
    pub padding: Arc<GeckoPadding>,
    pub pointing: Arc<GeckoPointing>,
    pub position: Arc<GeckoPosition>,
    pub svg: Arc<GeckoSVG>,
    pub text: Arc<GeckoText>,
    pub custom_properties: Option<Arc<ComputedValuesMap>>,
    pub shareable: bool,
    pub writing_mode: WritingMode,
    pub root_font_size: Au,
}

/// Whether two optional custom property maps are the same map.
pub open spec fn same_custom_properties(a: Option<Arc<ComputedValuesMap>>, b: Option<Arc<ComputedValuesMap>>) -> bool {
    match (a, b) {
        (None, None) => true,
        (Some(x), Some(y)) => *x == *y,
        _ => false,
    }
}

fn clone_custom_properties(c: &Option<Arc<ComputedValuesMap>>) -> (r: Option<Arc<ComputedValuesMap>>)
    ensures
        same_custom_properties(r, *c),
{
    match c {
        Some(x) => Some(arc_clone(x)),
        None => None,
    }
}

impl ComputedValues {
    /// Whether the style structs of `r` are those of `parent` for the
    /// inherited groups and those of `initial` for the others, and the
    /// custom properties, shareability, writing mode and root font size are
    /// those of `parent`.
    pub open spec fn inherits(r: Self, parent: Self, initial: Self) -> bool {
        &&& *r.background == *initial.background
        &&& *r.border == *initial.border
        &&& *r.box_ == *initial.box_
        &&& *r.color == *parent.color
        &&& *r.column == *initial.column
        &&& *r.font == *parent.font
        &&& *r.inherited_text == *parent.inherited_text
        &&& *r.list == *parent.list
        &&& *r.margin == *initial.margin
        &&& *r.outline == *initial.outline
        &&& *r.padding == *initial.padding
        &&& *r.pointing == *parent.pointing
        &&& *r.position == *initial.position
        &&& *r.svg == *initial.svg
        &&& *r.text == *initial.text
        &&& same_custom_properties(r.custom_properties, parent.custom_properties)
        &&& r.shareable == parent.shareable
        &&& r.writing_mode == parent.writing_mode
        &&& r.root_font_size == parent.root_font_size
    }

    /// The computed values of a child of `parent` that no rule matches: the
    /// inherited groups come from the parent and the others from the
    /// initial values.
    pub fn inherit_from(parent: &Arc<Self>, initial: &Self) -> (r: Arc<Self>)
        ensures
            Self::inherits(*r, **parent, *initial),
            *r.color == *parent.color,
            *r.font == *parent.font,
            *r.inherited_text == *parent.inherited_text,
            *r.list == *parent.list,
            *r.pointing == *parent.pointing,
            *r.background == *initial.background,
            *r.border == *initial.border,
            *r.box_ == *initial.box_,
            *r.column == *initial.column,
            *r.margin == *initial.margin,
            *r.outline == *initial.outline,
            *r.padding == *initial.padding,
            *r.position == *initial.position,
            *r.svg == *initial.svg,
            *r.text == *initial.text,
    {
        Arc::new(ComputedValues {
            custom_properties: clone_custom_properties(&parent.custom_properties),
            shareable: parent.shareable,
            writing_mode: parent.writing_mode,
            root_font_size: parent.root_font_size,
            background: arc_clone(&initial.background),
            border: arc_clone(&initial.border),
            box_: arc_clone(&initial.box_),
            color: arc_clone(&parent.color),
            column: arc_clone(&initial.column),
            font: arc_clone(&parent.font),
            inherited_text: arc_clone(&parent.inherited_text),
            list: arc_clone(&parent.list),
            margin: arc_clone(&initial.margin),
            outline: arc_clone(&initial.outline),
            padding: arc_clone(&initial.padding),
            pointing: arc_clone(&parent.pointing),
            position: arc_clone(&initial.position),
            svg: arc_clone(&initial.svg),
            text: arc_clone(&initial.text),
        })
    }

    /// Builds computed values from their parts.
    pub fn new(
        custom_properties: Option<Arc<ComputedValuesMap>>,
        shareable: bool,
        writing_mode: WritingMode,
        root_font_size: Au,
        background: Arc<GeckoBackground>,
        border: Arc<GeckoBorder>,
        box_: Arc<GeckoBox>,
        color: Arc<GeckoColor>,
        column: Arc<GeckoColumn>,
        font: Arc<GeckoFont>,
        inherited_text: Arc<GeckoInheritedText>,
        list: Arc<GeckoList>,
        margin: Arc<GeckoMargin>,
        outline: Arc<GeckoOutline>,
        padding: Arc<GeckoPadding>,
        pointing: Arc<GeckoPointing>,
        position: Arc<GeckoPosition>,
        svg: Arc<GeckoSVG>,
        text: Arc<GeckoText>,
    ) -> (r: Self)
        ensures
            r.background == background,
            r.border == border,
            r.box_ == box_,
            r.color == color,
            r.column == column,
            r.font == font,
            r.inherited_text == inherited_text,
            r.list == list,
            r.margin == margin,
            r.outline == outline,
            r.padding == padding,
            r.pointing == pointing,
            r.position == position,
            r.svg == svg,
            r.text == text,
            r.custom_properties == custom_properties,
            r.shareable == shareable,
            r.writing_mode == writing_mode,
            r.root_font_size == root_font_size,
    {
        ComputedValues {
            custom_properties,
            shareable,
            writing_mode,
            root_font_size,
            background,
            border,
            box_,
            color,
            column,
            font,
            inherited_text,
            list,
            margin,
            outline,
            padding,
            pointing,
            position,
            svg,
            text,
        }
    }

    /// The style of a text node child of `parent`: text nodes are styled as
    /// elements that no rule matches.
    pub fn style_for_child_text_node(parent: &Arc<Self>, initial: &Self) -> (r: Arc<Self>)
        ensures
            Self::inherits(*r, **parent, *initial),
    {
        ComputedValues::inherit_from(parent, initial)
    }

    /// The initial computed values: every style struct initial, no custom
    /// properties, shareable, no writing mode flag, and a root font size of
    /// 16px.
    pub fn initial() -> (r: Self)
        ensures
            r.background.is_initial(),
            r.border.is_initial(),
            r.box_.is_initial(),
            r.color.is_initial(),
            r.column.is_initial(),
            r.font.is_initial(),
            r.inherited_text.is_initial(),
            r.list.is_initial(),
            r.margin.is_initial(),
            r.outline.is_initial(),
            r.padding.is_initial(),
            r.pointing.is_initial(),
            r.position.is_initial(),
            r.svg.is_initial(),
            r.text.is_initial(),
            r.custom_properties is None,
            r.shareable,
            r.writing_mode.0 == 0,
            r.root_font_size.0 == 960,
    {
        ComputedValues {
            background: GeckoBackground::initial(),
            border: GeckoBorder::initial(),
            box_: GeckoBox::initial(),
            color: GeckoColor::initial(),
            column: GeckoColumn::initial(),
            font: GeckoFont::initial(),
            inherited_text: GeckoInheritedText::initial(),
            list: GeckoList::initial(),
            margin: GeckoMargin::initial(),
            outline: GeckoOutline::initial(),
            padding: GeckoPadding::initial(),
            pointing: GeckoPointing::initial(),
            position: GeckoPosition::initial(),
            svg: GeckoSVG::initial(),
            text: GeckoText::initial(),
            custom_properties: None,
            shareable: true,
            writing_mode: WritingMode::empty(),
            root_font_size: Au(960),
        }
    }

    /// Another pointer to the shared background struct.
    pub fn clone_background(&self) -> (r: Arc<GeckoBackground>)
        ensures
            *r == *self.background,
    {
        arc_clone(&self.background)
    }

    /// The background struct.
    pub fn get_background(&self) -> (r: &GeckoBackground)
        ensures
            *r == *self.background,
    {
        &self.background
    }

    /// The background struct, to change; it is first copied if it is shared.
    pub fn mutate_background(&mut self) -> (r: &mut GeckoBackground)
        ensures
            r.same_as(*old(self).background),
            *final(self).background == *final(r),
            final(self).border == old(self).border,
            final(self).box_ == old(self).box_,
            final(self).color == old(self).color,
            final(self).column == old(self).column,
            final(self).font == old(self).font,
            final(self).inherited_text == old(self).inherited_text,
            final(self).list == old(self).list,
            final(self).margin == old(self).margin,
            final(self).outline == old(self).outline,
            final(self).padding == old(self).padding,
            final(self).pointing == old(self).pointing,
            final(self).position == old(self).position,
            final(self).svg == old(self).svg,
            final(self).text == old(self).text,
            final(self).custom_properties == old(self).custom_properties,
            final(self).shareable == old(self).shareable,
            final(self).writing_mode == old(self).writing_mode,
            final(self).root_font_size == old(self).root_font_size,
    {
        arc_make_mut(&mut self.background)
    }

    /// Another pointer to the shared border struct.
    pub fn clone_border(&self) -> (r: Arc<GeckoBorder>)
        ensures
            *r == *self.border,
    {
        arc_clone(&self.border)
    }

    /// The border struct.
    pub fn get_border(&self) -> (r: &GeckoBorder)
        ensures
            *r == *self.border,
    {
        &self.border
    }

    /// The border struct, to change; it is first copied if it is shared.
    pub fn mutate_border(&mut self) -> (r: &mut GeckoBorder)
        ensures
            r.same_as(*old(self).border),
            *final(self).border == *final(r),
            final(self).background == old(self).background,
            final(self).box_ == old(self).box_,
            final(self).color == old(self).color,
            final(self).column == old(self).column,
            final(self).font == old(self).font,
            final(self).inherited_text == old(self).inherited_text,
            final(self).list == old(self).list,
            final(self).margin == old(self).margin,
            final(self).outline == old(self).outline,
            final(self).padding == old(self).padding,
            final(self).pointing == old(self).pointing,
            final(self).position == old(self).position,
            final(self).svg == old(self).svg,
            final(self).text == old(self).text,
            final(self).custom_properties == old(self).custom_properties,
            final(self).shareable == old(self).shareable,
            final(self).writing_mode == old(self).writing_mode,
            final(self).root_font_size == old(self).root_font_size,
    {
        arc_make_mut(&mut self.border)
    }

    /// Another pointer to the shared box struct.
    pub fn clone_box(&self) -> (r: Arc<GeckoBox>)
        ensures
            *r == *self.box_,
    {
        arc_clone(&self.box_)
    }

    /// The box struct.
    pub fn get_box(&self) -> (r: &GeckoBox)
        ensures
            *r == *self.box_,
    {
        &self.box_
    }

    /// The box struct, to change; it is first copied if it is shared.
    pub fn mutate_box(&mut self) -> (r: &mut GeckoBox)
        ensures
            r.same_as(*old(self).box_),
            *final(self).box_ == *final(r),
            final(self).background == old(self).background,
            final(self).border == old(self).border,
            final(self).color == old(self).color,
            final(self).column == old(self).column,
            final(self).font == old(self).font,
            final(self).inherited_text == old(self).inherited_text,
            final(self).list == old(self).list,
            final(self).margin == old(self).margin,
            final(self).outline == old(self).outline,
            final(self).padding == old(self).padding,
            final(self).pointing == old(self).pointing,
            final(self).position == old(self).position,
            final(self).svg == old(self).svg,
            final(self).text == old(self).text,
            final(self).custom_properties == old(self).custom_properties,
            final(self).shareable == old(self).shareable,
            final(self).writing_mode == old(self).writing_mode,
            final(self).root_font_size == old(self).root_font_size,
    {
        arc_make_mut(&mut self.box_)
    }

    /// Another pointer to the shared color struct.
    pub fn clone_color(&self) -> (r: Arc<GeckoColor>)
        ensures
            *r == *self.color,
    {
        arc_clone(&self.color)
    }

    /// The color struct.
    pub fn get_color(&self) -> (r: &GeckoColor)
        ensures
            *r == *self.color,
    {
        &self.color
    }

    /// The color struct, to change; it is first copied if it is shared.
    pub fn mutate_color(&mut self) -> (r: &mut GeckoColor)
        ensures
            r.same_as(*old(self).color),
            *final(self).color == *final(r),
            final(self).background == old(self).background,
            final(self).border == old(self).border,
            final(self).box_ == old(self).box_,
            final(self).column == old(self).column,
            final(self).font == old(self).font,
            final(self).inherited_text == old(self).inherited_text,
            final(self).list == old(self).list,
            final(self).margin == old(self).margin,
            final(self).outline == old(self).outline,
            final(self).padding == old(self).padding,
            final(self).pointing == old(self).pointing,
            final(self).position == old(self).position,
            final(self).svg == old(self).svg,
            final(self).text == old(self).text,
            final(self).custom_properties == old(self).custom_properties,
            final(self).shareable == old(self).shareable,
            final(self).writing_mode == old(self).writing_mode,
            final(self).root_font_size == old(self).root_font_size,
    {
        arc_make_mut(&mut self.color)
    }

    /// Another pointer to the shared column struct.
    pub fn clone_column(&self) -> (r: Arc<GeckoColumn>)
        ensures
            *r == *self.column,
    {
        arc_clone(&self.column)
    }

    /// The column struct.
    pub fn get_column(&self) -> (r: &GeckoColumn)
        ensures
            *r == *self.column,
    {
        &self.column
    }

    /// The column struct, to change; it is first copied if it is shared.
    pub fn mutate_column(&mut self) -> (r: &mut GeckoColumn)
        ensures
            r.same_as(*old(self).column),
            *final(self).column == *final(r),
            final(self).background == old(self).background,
            final(self).border == old(self).border,
            final(self).box_ == old(self).box_,
            final(self).color == old(self).color,
            final(self).font == old(self).font,
            final(self).inherited_text == old(self).inherited_text,
            final(self).list == old(self).list,
            final(self).margin == old(self).margin,
            final(self).outline == old(self).outline,
            final(self).padding == old(self).padding,
            final(self).pointing == old(self).pointing,
            final(self).position == old(self).position,
            final(self).svg == old(self).svg,
            final(self).text == old(self).text,
            final(self).custom_properties == old(self).custom_properties,
            final(self).shareable == old(self).shareable,
            final(self).writing_mode == old(self).writing_mode,
            final(self).root_font_size == old(self).root_font_size,
    {
        arc_make_mut(&mut self.column)
    }

    /// Another pointer to the shared font struct.
    pub fn clone_font(&self) -> (r: Arc<GeckoFont>)
        ensures
            *r == *self.font,
    {
        arc_clone(&self.font)
    }

    /// The font struct.
    pub fn get_font(&self) -> (r: &GeckoFont)
        ensures
            *r == *self.font,
    {
        &self.font
    }

    /// The font struct, to change; it is first copied if it is shared.
    pub fn mutate_font(&mut self) -> (r: &mut GeckoFont)
        ensures
            r.same_as(*old(self).font),
            *final(self).font == *final(r),
            final(self).background == old(self).background,
            final(self).border == old(self).border,
            final(self).box_ == old(self).box_,
            final(self).color == old(self).color,
            final(self).column == old(self).column,
            final(self).inherited_text == old(self).inherited_text,
            final(self).list == old(self).list,
            final(self).margin == old(self).margin,
            final(self).outline == old(self).outline,
            final(self).padding == old(self).padding,
            final(self).pointing == old(self).pointing,
            final(self).position == old(self).position,
            final(self).svg == old(self).svg,
            final(self).text == old(self).text,
            final(self).custom_properties == old(self).custom_properties,
            final(self).shareable == old(self).shareable,
            final(self).writing_mode == old(self).writing_mode,
            final(self).root_font_size == old(self).root_font_size,
    {
        arc_make_mut(&mut self.font)
    }

    /// Another pointer to the shared inheritedtext struct.
    pub fn clone_inheritedtext(&self) -> (r: Arc<GeckoInheritedText>)
        ensures
            *r == *self.inherited_text,
    {
        arc_clone(&self.inherited_text)
    }

    /// The inheritedtext struct.
    pub fn get_inheritedtext(&self) -> (r: &GeckoInheritedText)
        ensures
            *r == *self.inherited_text,
    {
        &self.inherited_text
    }

    /// The inheritedtext struct, to change; it is first copied if it is shared.
    pub fn mutate_inheritedtext(&mut self) -> (r: &mut GeckoInheritedText)
        ensures
            r.same_as(*old(self).inherited_text),
            *final(self).inherited_text == *final(r),
            final(self).background == old(self).background,
            final(self).border == old(self).border,
            final(self).box_ == old(self).box_,
            final(self).color == old(self).color,
            final(self).column == old(self).column,
            final(self).font == old(self).font,
            final(self).list == old(self).list,
            final(self).margin == old(self).margin,
            final(self).outline == old(self).outline,
            final(self).padding == old(self).padding,
            final(self).pointing == old(self).pointing,
            final(self).position == old(self).position,
            final(self).svg == old(self).svg,
            final(self).text == old(self).text,
            final(self).custom_properties == old(self).custom_properties,
            final(self).shareable == old(self).shareable,
            final(self).writing_mode == old(self).writing_mode,
            final(self).root_font_size == old(self).root_font_size,
    {
        arc_make_mut(&mut self.inherited_text)
    }

    /// Another pointer to the shared list struct.
    pub fn clone_list(&self) -> (r: Arc<GeckoList>)
        ensures
            *r == *self.list,
    {
        arc_clone(&self.list)
    }

    /// The list struct.
    pub fn get_list(&self) -> (r: &GeckoList)
        ensures
            *r == *self.list,
    {
        &self.list
    }

    /// The list struct, to change; it is first copied if it is shared.
    pub fn mutate_list(&mut self) -> (r: &mut GeckoList)
        ensures
            r.same_as(*old(self).list),
            *final(self).list == *final(r),
            final(self).background == old(self).background,
            final(self).border == old(self).border,
            final(self).box_ == old(self).box_,
            final(self).color == old(self).color,
            final(self).column == old(self).column,
            final(self).font == old(self).font,
            final(self).inherited_text == old(self).inherited_text,
            final(self).margin == old(self).margin,
            final(self).outline == old(self).outline,
            final(self).padding == old(self).padding,
            final(self).pointing == old(self).pointing,
            final(self).position == old(self).position,
            final(self).svg == old(self).svg,
            final(self).text == old(self).text,
            final(self).custom_properties == old(self).custom_properties,
            final(self).shareable == old(self).shareable,
            final(self).writing_mode == old(self).writing_mode,
            final(self).root_font_size == old(self).root_font_size,
    {
        arc_make_mut(&mut self.list)
    }

    /// Another pointer to the shared margin struct.
    pub fn clone_margin(&self) -> (r: Arc<GeckoMargin>)
        ensures
            *r == *self.margin,
    {
        arc_clone(&self.margin)
    }

    /// The margin struct.
    pub fn get_margin(&self) -> (r: &GeckoMargin)
        ensures
            *r == *self.margin,
    {
        &self.margin
    }

    /// The margin struct, to change; it is first copied if it is shared.
    pub fn mutate_margin(&mut self) -> (r: &mut GeckoMargin)
        ensures
            r.same_as(*old(self).margin),
            *final(self).margin == *final(r),
            final(self).background == old(self).background,
            final(self).border == old(self).border,
            final(self).box_ == old(self).box_,
            final(self).color == old(self).color,
            final(self).column == old(self).column,
            final(self).font == old(self).font,
            final(self).inherited_text == old(self).inherited_text,
            final(self).list == old(self).list,
            final(self).outline == old(self).outline,
            final(self).padding == old(self).padding,
            final(self).pointing == old(self).pointing,
            final(self).position == old(self).position,
            final(self).svg == old(self).svg,
            final(self).text == old(self).text,
            final(self).custom_properties == old(self).custom_properties,
            final(self).shareable == old(self).shareable,
            final(self).writing_mode == old(self).writing_mode,
            final(self).root_font_size == old(self).root_font_size,
    {
        arc_make_mut(&mut self.margin)
    }

    /// Another pointer to the shared outline struct.
    pub fn clone_outline(&self) -> (r: Arc<GeckoOutline>)
        ensures
            *r == *self.outline,
    {
        arc_clone(&self.outline)
    }

    /// The outline struct.
    pub fn get_outline(&self) -> (r: &GeckoOutline)
        ensures
            *r == *self.outline,
    {
        &self.outline
    }

    /// The outline struct, to change; it is first copied if it is shared.
    pub fn mutate_outline(&mut self) -> (r: &mut GeckoOutline)
        ensures
            r.same_as(*old(self).outline),
            *final(self).outline == *final(r),
            final(self).background == old(self).background,
            final(self).border == old(self).border,
            final(self).box_ == old(self).box_,
            final(self).color == old(self).color,
            final(self).column == old(self).column,
            final(self).font == old(self).font,
            final(self).inherited_text == old(self).inherited_text,
            final(self).list == old(self).list,
            final(self).margin == old(self).margin,
            final(self).padding == old(self).padding,
            final(self).pointing == old(self).pointing,
            final(self).position == old(self).position,
            final(self).svg == old(self).svg,
            final(self).text == old(self).text,
            final(self).custom_properties == old(self).custom_properties,
            final(self).shareable == old(self).shareable,
            final(self).writing_mode == old(self).writing_mode,
            final(self).root_font_size == old(self).root_font_size,
    {
        arc_make_mut(&mut self.outline)
    }

    /// Another pointer to the shared padding struct.
    pub fn clone_padding(&self) -> (r: Arc<GeckoPadding>)
        ensures
            *r == *self.padding,
    {
        arc_clone(&self.padding)
    }

    /// The padding struct.
    pub fn get_padding(&self) -> (r: &GeckoPadding)
        ensures
            *r == *self.padding,
    {
        &self.padding
    }

    /// The padding struct, to change; it is first copied if it is shared.
    pub fn mutate_padding(&mut self) -> (r: &mut GeckoPadding)
        ensures
            r.same_as(*old(self).padding),
            *final(self).padding == *final(r),
            final(self).background == old(self).background,
            final(self).border == old(self).border,
            final(self).box_ == old(self).box_,
            final(self).color == old(self).color,
            final(self).column == old(self).column,
            final(self).font == old(self).font,
            final(self).inherited_text == old(self).inherited_text,
            final(self).list == old(self).list,
            final(self).margin == old(self).margin,
            final(self).outline == old(self).outline,
            final(self).pointing == old(self).pointing,
            final(self).position == old(self).position,
            final(self).svg == old(self).svg,
            final(self).text == old(self).text,
            final(self).custom_properties == old(self).custom_properties,
            final(self).shareable == old(self).shareable,
            final(self).writing_mode == old(self).writing_mode,
            final(self).root_font_size == old(self).root_font_size,
    {
        arc_make_mut(&mut self.padding)
    }

    /// Another pointer to the shared pointing struct.
    pub fn clone_pointing(&self) -> (r: Arc<GeckoPointing>)
        ensures
            *r == *self.pointing,
    {
        arc_clone(&self.pointing)
    }

    /// The pointing struct.
    pub fn get_pointing(&self) -> (r: &GeckoPointing)
        ensures
            *r == *self.pointing,
    {
        &self.pointing
    }

    /// The pointing struct, to change; it is first copied if it is shared.
    pub fn mutate_pointing(&mut self) -> (r: &mut GeckoPointing)
        ensures
            r.same_as(*old(self).pointing),
            *final(self).pointing == *final(r),
            final(self).background == old(self).background,
            final(self).border == old(self).border,
            final(self).box_ == old(self).box_,
            final(self).color == old(self).color,
            final(self).column == old(self).column,
            final(self).font == old(self).font,
            final(self).inherited_text == old(self).inherited_text,
            final(self).list == old(self).list,
            final(self).margin == old(self).margin,
            final(self).outline == old(self).outline,
            final(self).padding == old(self).padding,
            final(self).position == old(self).position,
            final(self).svg == old(self).svg,
            final(self).text == old(self).text,
            final(self).custom_properties == old(self).custom_properties,
            final(self).shareable == old(self).shareable,
            final(self).writing_mode == old(self).writing_mode,
            final(self).root_font_size == old(self).root_font_size,
    {
        arc_make_mut(&mut self.pointing)
    }

    /// Another pointer to the shared position struct.
    pub fn clone_position(&self) -> (r: Arc<GeckoPosition>)
        ensures
            *r == *self.position,
    {
        arc_clone(&self.position)
    }

    /// The position struct.
    pub fn get_position(&self) -> (r: &GeckoPosition)
        ensures
            *r == *self.position,
    {
        &self.position
    }

    /// The position struct, to change; it is first copied if it is shared.
    pub fn mutate_position(&mut self) -> (r: &mut GeckoPosition)
        ensures
            r.same_as(*old(self).position),
            *final(self).position == *final(r),
            final(self).background == old(self).background,
            final(self).border == old(self).border,
            final(self).box_ == old(self).box_,
            final(self).color == old(self).color,
            final(self).column == old(self).column,
            final(self).font == old(self).font,
            final(self).inherited_text == old(self).inherited_text,
            final(self).list == old(self).list,
            final(self).margin == old(self).margin,
            final(self).outline == old(self).outline,
            final(self).padding == old(self).padding,
            final(self).pointing == old(self).pointing,
            final(self).svg == old(self).svg,
            final(self).text == old(self).text,
            final(self).custom_properties == old(self).custom_properties,
            final(self).shareable == old(self).shareable,
            final(self).writing_mode == old(self).writing_mode,
            final(self).root_font_size == old(self).root_font_size,
    {
        arc_make_mut(&mut self.position)
    }

    /// Another pointer to the shared svg struct.
    pub fn clone_svg(&self) -> (r: Arc<GeckoSVG>)
        ensures
            *r == *self.svg,
    {
        arc_clone(&self.svg)
    }

    /// The svg struct.
    pub fn get_svg(&self) -> (r: &GeckoSVG)
        ensures
            *r == *self.svg,
    {
        &self.svg
    }

    /// The svg struct, to change; it is first copied if it is shared.
    pub fn mutate_svg(&mut self) -> (r: &mut GeckoSVG)
        ensures
            r.same_as(*old(self).svg),
            *final(self).svg == *final(r),
            final(self).background == old(self).background,
            final(self).border == old(self).border,
            final(self).box_ == old(self).box_,
            final(self).color == old(self).color,
            final(self).column == old(self).column,
            final(self).font == old(self).font,
            final(self).inherited_text == old(self).inherited_text,
            final(self).list == old(self).list,
            final(self).margin == old(self).margin,
            final(self).outline == old(self).outline,
            final(self).padding == old(self).padding,
            final(self).pointing == old(self).pointing,
            final(self).position == old(self).position,
            final(self).text == old(self).text,
            final(self).custom_properties == old(self).custom_properties,
            final(self).shareable == old(self).shareable,
            final(self).writing_mode == old(self).writing_mode,
            final(self).root_font_size == old(self).root_font_size,
    {
        arc_make_mut(&mut self.svg)
    }

    /// Another pointer to the shared text struct.
    pub fn clone_text(&self) -> (r: Arc<GeckoText>)
        ensures
            *r == *self.text,
    {
        arc_clone(&self.text)
    }

    /// The text struct.
    pub fn get_text(&self) -> (r: &GeckoText)
        ensures
            *r == *self.text,
    {
        &self.text
    }

    /// The text struct, to change; it is first copied if it is shared.
    pub fn mutate_text(&mut self) -> (r: &mut GeckoText)
        ensures
            r.same_as(*old(self).text),
            *final(self).text == *final(r),
            final(self).background == old(self).background,
            final(self).border == old(self).border,
            final(self).box_ == old(self).box_,
            final(self).color == old(self).color,
            final(self).column == old(self).column,
            final(self).font == old(self).font,
            final(self).inherited_text == old(self).inherited_text,
            final(self).list == old(self).list,
            final(self).margin == old(self).margin,
            final(self).outline == old(self).outline,
            final(self).padding == old(self).padding,
            final(self).pointing == old(self).pointing,
            final(self).position == old(self).position,
            final(self).svg == old(self).svg,
            final(self).custom_properties == old(self).custom_properties,
            final(self).shareable == old(self).shareable,
            final(self).writing_mode == old(self).writing_mode,
            final(self).root_font_size == old(self).root_font_size,
    {
        arc_make_mut(&mut self.text)
    }

    /// The custom properties, if any, shared.
    pub fn custom_properties(&self) -> (r: Option<Arc<ComputedValuesMap>>)
        ensures
            same_custom_properties(r, self.custom_properties),
    {
        clone_custom_properties(&self.custom_properties)
    }

    /// The root font size.
    pub fn root_font_size(&self) -> (r: Au)
        ensures
            r == self.root_font_size,
    {
        self.root_font_size
    }

    /// Sets the root font size.
    pub fn set_root_font_size(&mut self, s: Au)
        ensures
            *final(self) == (ComputedValues { root_font_size: s, ..*old(self) }),
    {
        self.root_font_size = s;
    }

    /// Sets the writing mode.
    pub fn set_writing_mode(&mut self, mode: WritingMode)
        ensures
            *final(self) == (ComputedValues { writing_mode: mode, ..*old(self) }),
    {
        self.writing_mode = mode;
    }

    /// Whether the element is a multi-column container; not kept for Gecko
    /// structs, so never.
    pub fn is_multicol(&self) -> (r: bool)
        ensures
            !r,
    {
        false
    }

    /// Whether the computed values may be shared with other elements.
    pub fn is_shareable(&self) -> (r: bool)
        ensures
            r == self.shareable,
    {
        self.shareable
    }
}

impl Clone for ComputedValues {
    fn clone(&self) -> (r: Self)
        ensures
            *r.background == *self.background,
            *r.border == *self.border,
            *r.box_ == *self.box_,
            *r.color == *self.color,
            *r.column == *self.column,
            *r.font == *self.font,
            *r.inherited_text == *self.inherited_text,
            *r.list == *self.list,
            *r.margin == *self.margin,
            *r.outline == *self.outline,
            *r.padding == *self.padding,
            *r.pointing == *self.pointing,
            *r.position == *self.position,
            *r.svg == *self.svg,
            *r.text == *self.text,
            same_custom_properties(r.custom_properties, self.custom_properties),
            r.shareable == self.shareable,
            r.writing_mode == self.writing_mode,
            r.root_font_size == self.root_font_size,
    {
        ComputedValues {
            background: arc_clone(&self.background),
            border: arc_clone(&self.border),
            box_: arc_clone(&self.box_),
            color: arc_clone(&self.color),
            column: arc_clone(&self.column),
            font: arc_clone(&self.font),
            inherited_text: arc_clone(&self.inherited_text),
            list: arc_clone(&self.list),
            margin: arc_clone(&self.margin),
            outline: arc_clone(&self.outline),
            padding: arc_clone(&self.padding),
            pointing: arc_clone(&self.pointing),
            position: arc_clone(&self.position),
            svg: arc_clone(&self.svg),
            text: arc_clone(&self.text),
            custom_properties: clone_custom_properties(&self.custom_properties),
            shareable: self.shareable,
            writing_mode: self.writing_mode,
            root_font_size: self.root_font_size,
        }
    }
}

/// The groups whose properties are inherited (color, font, inherited text,
/// list and pointing) come from the parent; the reset groups come from the
/// initial values.
pub proof fn lemma_inherited_groups(r: ComputedValues, parent: ComputedValues, initial: ComputedValues)
    requires
        ComputedValues::inherits(r, parent, initial),
    ensures
        *r.color == *parent.color,
        *r.font == *parent.font,
        *r.inherited_text == *parent.inherited_text,
        *r.list == *parent.list,
        *r.pointing == *parent.pointing,
        *r.background == *initial.background,
        *r.border == *initial.border,
        *r.box_ == *initial.box_,
        *r.column == *initial.column,
        *r.margin == *initial.margin,
        *r.outline == *initial.outline,
        *r.padding == *initial.padding,
        *r.position == *initial.position,
        *r.svg == *initial.svg,
        *r.text == *initial.text,
{
}

/// A grandchild that inherits from a child, which inherited from a parent,
/// holds what a child of that parent would: inheriting twice is inheriting once.
pub proof fn lemma_inherit_twice(parent: ComputedValues, child: ComputedValues, grandchild: ComputedValues,
    initial: ComputedValues)
    requires
        ComputedValues::inherits(child, parent, initial),
        ComputedValues::inherits(grandchild, child, initial),
    ensures
        ComputedValues::inherits(grandchild, parent, initial),
{
}

} // verus!
