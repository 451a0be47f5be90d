//! The background style struct: Gecko's `nsStyleBackground` with its image
//! layers, and the accessors that convert computed background values into it
//! and back. Only the first layer is set from computed values, except for
//! `background-image`, which sets one layer per image.
use vstd::prelude::*;
use std::sync::Arc;
use crate::units::Au;
use crate::color::{Color, spec_rgba_of, convert_rgba_to_nscolor, convert_nscolor_to_rgba};
use crate::coord::{StyleCoord, CoordDataValue, CalcValue, CssFloat, LengthOrPercentage,
    spec_calc_to_gecko, spec_calc_from_gecko, calc_to_gecko, calc_from_gecko, spec_opt_lop_to_coord,
    opt_lop_to_gecko_style_coord};
use crate::box_struct::UrlExtraData;
use crate::style_bits::spec_color_value;
use crate::consts;

verus! {

/// A computed `background-repeat` keyword.
#[derive(Clone, Copy, Debug, PartialEq, Eq, Structural)]
pub enum BackgroundRepeat {
    RepeatX,
    RepeatY,
    Repeat,
    NoRepeat,
}

/// A computed `background-clip` / `background-origin` keyword.
#[derive(Clone, Copy, Debug, PartialEq, Eq, Structural)]
pub enum BackgroundBox {
    BorderBox,
    PaddingBox,
    ContentBox,
}

/// A computed `background-attachment` keyword.
#[derive(Clone, Copy, Debug, PartialEq, Eq, Structural)]
pub enum BackgroundAttachment {
    Scroll,
    Fixed,
    Local,
}

/// A computed `background-position`.
#[derive(Clone, Copy, Debug, PartialEq, Eq, Structural)]
pub struct Position {
    pub horizontal: LengthOrPercentage,
    pub vertical: LengthOrPercentage,
}

/// A horizontal side named by a gradient direction.
#[derive(Clone, Copy, Debug, PartialEq, Eq, Structural)]
pub enum HorizontalDirection {
    Left,
    Right,
}

/// A vertical side named by a gradient direction.
#[derive(Clone, Copy, Debug, PartialEq, Eq, Structural)]
pub enum VerticalDirection {
    Top,
    Bottom,
}

/// The direction of a linear gradient: an angle in radians, or a corner.
#[derive(Clone, Copy, Debug, PartialEq, Eq, Structural)]
pub enum AngleOrCorner {
    Angle(CssFloat),
    Corner(HorizontalDirection, VerticalDirection),
}

/// A computed gradient color stop.
#[derive(Clone, Copy, Debug, PartialEq, Eq, Structural)]
pub struct ColorStop {
    pub color: Color,
    pub position: Option<LengthOrPercentage>,
}

/// A computed linear gradient.
#[derive(Debug)]
pub struct Gradient {
    pub stops: Vec<ColorStop>,
    pub angle_or_corner: AngleOrCorner,
}

/// A computed `<image>`.
#[derive(Debug)]
pub enum Image {
    LinearGradient(Gradient),
    Url(String, UrlExtraData),
}

/// A stop of Gecko's `nsStyleGradient`.
#[derive(Clone, Copy, Debug, PartialEq, Eq, Structural)]
pub struct GradientStop {
    pub location: StyleCoord,
    pub color: u32,
    pub is_interpolation_hint: bool,
}

/// Gecko's `nsStyleGradient`.
#[derive(Debug)]
pub struct StyleGradient {
    pub shape: u8,
    pub size: u8,
    pub repeating: bool,
    pub legacy_syntax: bool,
    pub angle: StyleCoord,
    pub stops: Vec<GradientStop>,
}

/// Gecko's `nsStyleImage`: none, or a gradient.
#[derive(Debug)]
pub enum StyleImage {
    Null,
    Gradient(StyleGradient),
}

/// The repeat of a layer along each axis.
#[derive(Clone, Copy, Debug, PartialEq, Eq, Structural)]
pub struct Repeat {
    pub x_repeat: u8,
    pub y_repeat: u8,
}

/// The position of a layer along each axis.
#[derive(Clone, Copy, Debug, PartialEq, Eq, Structural)]
pub struct LayerPosition {
    pub x_position: CalcValue,
    pub y_position: CalcValue,
}

/// A layer of Gecko's `nsStyleImageLayers`.
#[derive(Debug)]
pub struct ImageLayer {
    pub image: StyleImage,
    pub repeat: Repeat,
    pub clip: u8,
    pub origin: u8,
    pub attachment: u8,
    pub position: LayerPosition,
}

/// Gecko's `nsStyleImageLayers`: the layers, of which there is always at
/// least one, and for each property the number of layers that set it.
#[derive(Debug)]
pub struct NsStyleImageLayers {
    pub image_count: u32,
    pub repeat_count: u32,
    pub clip_count: u32,
    pub origin_count: u32,
    pub attachment_count: u32,
    pub position_x_count: u32,
    pub position_y_count: u32,
    pub layers: Vec<ImageLayer>,
}

/// Gecko's `nsStyleBackground`, as far as the style system reads and writes it.
#[derive(Debug)]
pub struct NsStyleBackground {
    pub background_color: u32,
    pub image: NsStyleImageLayers,
}

/// The background style struct.
#[derive(Debug)]
pub struct GeckoBackground {
    pub gecko: NsStyleBackground,
}

pub open spec fn spec_repeat_of(v: BackgroundRepeat) -> Repeat {
    match v {
        BackgroundRepeat::RepeatX => Repeat {
            x_repeat: consts::NS_STYLE_IMAGELAYER_REPEAT_REPEAT,
            y_repeat: consts::NS_STYLE_IMAGELAYER_REPEAT_NO_REPEAT,
        },
        BackgroundRepeat::RepeatY => Repeat {
            x_repeat: consts::NS_STYLE_IMAGELAYER_REPEAT_NO_REPEAT,
            y_repeat: consts::NS_STYLE_IMAGELAYER_REPEAT_REPEAT,
        },
        BackgroundRepeat::Repeat => Repeat {
            x_repeat: consts::NS_STYLE_IMAGELAYER_REPEAT_REPEAT,
            y_repeat: consts::NS_STYLE_IMAGELAYER_REPEAT_REPEAT,
        },
        BackgroundRepeat::NoRepeat => Repeat {
            x_repeat: consts::NS_STYLE_IMAGELAYER_REPEAT_NO_REPEAT,
            y_repeat: consts::NS_STYLE_IMAGELAYER_REPEAT_NO_REPEAT,
        },
    }
}

pub open spec fn spec_clip_of(v: BackgroundBox) -> u8 {
    match v {
        BackgroundBox::BorderBox => consts::NS_STYLE_IMAGELAYER_CLIP_BORDER,
        BackgroundBox::PaddingBox => consts::NS_STYLE_IMAGELAYER_CLIP_PADDING,
        BackgroundBox::ContentBox => consts::NS_STYLE_IMAGELAYER_CLIP_CONTENT,
    }
}

pub open spec fn spec_origin_of(v: BackgroundBox) -> u8 {
    match v {
        BackgroundBox::BorderBox => consts::NS_STYLE_IMAGELAYER_ORIGIN_BORDER,
        BackgroundBox::PaddingBox => consts::NS_STYLE_IMAGELAYER_ORIGIN_PADDING,
        BackgroundBox::ContentBox => consts::NS_STYLE_IMAGELAYER_ORIGIN_CONTENT,
    }
}

pub open spec fn spec_attachment_of(v: BackgroundAttachment) -> u8 {
    match v {
        BackgroundAttachment::Scroll => consts::NS_STYLE_IMAGELAYER_ATTACHMENT_SCROLL,
        BackgroundAttachment::Fixed => consts::NS_STYLE_IMAGELAYER_ATTACHMENT_FIXED,
        BackgroundAttachment::Local => consts::NS_STYLE_IMAGELAYER_ATTACHMENT_LOCAL,
    }
}

/// The position coordinate stored for a `<length-percentage>`.
pub open spec fn spec_position_coord_of(v: LengthOrPercentage) -> CalcValue {
    match v {
        LengthOrPercentage::Length(au) => CalcValue { length: au.0, percent: CssFloat(0), has_percent: false },
        LengthOrPercentage::Percentage(p) => CalcValue { length: 0, percent: p, has_percent: true },
        LengthOrPercentage::Calc(c) => spec_calc_to_gecko(c),
    }
}

/// The `<length-percentage>` a position coordinate stands for: a length
/// without a percentage, a percentage without a length, or else a calc().
pub open spec fn spec_lop_of_position_coord(c: CalcValue) -> LengthOrPercentage {
    if !c.has_percent {
        LengthOrPercentage::Length(Au(c.length))
    } else if c.length == 0 {
        LengthOrPercentage::Percentage(c.percent)
    } else {
        LengthOrPercentage::Calc(spec_calc_from_gecko(c))
    }
}

/// The position of a freshly initialized layer: 0% along each axis.
pub open spec fn spec_initial_position() -> LayerPosition {
    LayerPosition {
        x_position: CalcValue { length: 0, percent: CssFloat(0), has_percent: true },
        y_position: CalcValue { length: 0, percent: CssFloat(0), has_percent: true },
    }
}

/// The repeat of a freshly initialized layer: repeat along each axis.
pub open spec fn spec_initial_repeat() -> Repeat {
    Repeat { x_repeat: consts::NS_STYLE_IMAGELAYER_REPEAT_REPEAT, y_repeat: consts::NS_STYLE_IMAGELAYER_REPEAT_REPEAT }
}

/// The Gecko stop for a computed color stop: `currentColor` is stored as 0.
pub open spec fn spec_stop_of(s: ColorStop) -> GradientStop {
    GradientStop {
        location: StyleCoord { value: spec_opt_lop_to_coord(s.position) },
        color: spec_color_value(s.color),
        is_interpolation_hint: false,
    }
}

/// The angle stored for a gradient direction: an angle in radians; a corner
/// leaves the angle unset.
pub open spec fn spec_gradient_angle(a: AngleOrCorner) -> CoordDataValue {
    match a {
        AngleOrCorner::Angle(r) => CoordDataValue::Radian(r),
        AngleOrCorner::Corner(_, _) => CoordDataValue::Null,
    }
}

/// Whether an image can be stored: a gradient needs fewer than `u32::MAX` stops.
pub open spec fn image_fits(img: Option<Image>) -> bool {
    match img {
        Some(Image::LinearGradient(g)) => g.stops@.len() < u32::MAX,
        _ => true,
    }
}

/// Whether every image up to and including index `j` can be stored.
pub open spec fn images_fit_through(images: Seq<Option<Image>>, j: int) -> bool {
    forall|i: int| 0 <= i <= j ==> image_fits(#[trigger] images[i])
}

/// Whether a stored image is the one set for a computed image: a linear
/// gradient is stored with its direction and stops; a URL image and no image
/// leave the layer without an image.
pub open spec fn image_stored(img: Option<Image>, stored: StyleImage) -> bool {
    match img {
        Some(Image::LinearGradient(g)) => match stored {
            StyleImage::Gradient(sg) => {
                &&& sg.shape == consts::NS_STYLE_GRADIENT_SHAPE_LINEAR
                &&& sg.size == consts::NS_STYLE_GRADIENT_SIZE_FARTHEST_CORNER
                &&& !sg.repeating
                &&& !sg.legacy_syntax
                &&& sg.angle.value == spec_gradient_angle(g.angle_or_corner)
                &&& sg.stops@ == g.stops@.map_values(|s: ColorStop| spec_stop_of(s))
            },
            StyleImage::Null => false,
        },
        _ => stored is Null,
    }
}

impl ImageLayer {
    /// A layer as Gecko constructs and initializes it for a background.
    pub fn new() -> (r: ImageLayer)
        ensures
            r.image is Null,
            r.repeat == spec_initial_repeat(),
            r.clip == consts::NS_STYLE_IMAGELAYER_CLIP_BORDER,
            r.origin == consts::NS_STYLE_IMAGELAYER_ORIGIN_PADDING,
            r.attachment == consts::NS_STYLE_IMAGELAYER_ATTACHMENT_SCROLL,
            r.position == spec_initial_position(),
    {
        ImageLayer {
            image: StyleImage::Null,
            repeat: Repeat {
                x_repeat: consts::NS_STYLE_IMAGELAYER_REPEAT_REPEAT,
                y_repeat: consts::NS_STYLE_IMAGELAYER_REPEAT_REPEAT,
            },
            clip: consts::NS_STYLE_IMAGELAYER_CLIP_BORDER,
            origin: consts::NS_STYLE_IMAGELAYER_ORIGIN_PADDING,
            attachment: consts::NS_STYLE_IMAGELAYER_ATTACHMENT_SCROLL,
            position: LayerPosition {
                x_position: CalcValue { length: 0, percent: CssFloat(0), has_percent: true },
                y_position: CalcValue { length: 0, percent: CssFloat(0), has_percent: true },
            },
        }
    }
}

/// Builds the Gecko gradient for a computed linear gradient of fewer than
/// `u32::MAX` stops.
fn gradient_of(g: &Gradient) -> (r: StyleGradient)
    requires
        g.stops@.len() < u32::MAX,
    ensures
        image_stored(Some(Image::LinearGradient(*g)), StyleImage::Gradient(r)),
{
    let stop_count = g.stops.len();
    let mut stops: Vec<GradientStop> = Vec::new();
    let mut index: usize = 0;
    while index < stop_count
        invariant
            stop_count == g.stops@.len(),
            index <= stop_count,
            stops@ == g.stops@.take(index as int).map_values(|s: ColorStop| spec_stop_of(s)),
        decreases stop_count - index,
    {
        let stop = g.stops[index];
        let mut location = StyleCoord { value: CoordDataValue::Null };
        opt_lop_to_gecko_style_coord(stop.position, &mut location);
        let color = match stop.color {
            Color::CurrentColor => 0,
            Color::Rgba(rgba) => convert_rgba_to_nscolor(&rgba),
        };
        stops.push(GradientStop { location, color, is_interpolation_hint: false });
        assert(g.stops@.take(index + 1) =~= g.stops@.take(index as int).push(stop));
        assert(stops@ =~= g.stops@.take(index + 1).map_values(|s: ColorStop| spec_stop_of(s)));
        index = index + 1;
    }
    assert(g.stops@.take(stop_count as int) =~= g.stops@);
    let mut angle = StyleCoord { value: CoordDataValue::Null };
    if let AngleOrCorner::Angle(a) = g.angle_or_corner {
        angle.set_value(CoordDataValue::Radian(a));
    }
    StyleGradient {
        shape: consts::NS_STYLE_GRADIENT_SHAPE_LINEAR,
        size: consts::NS_STYLE_GRADIENT_SIZE_FARTHEST_CORNER,
        repeating: false,
        legacy_syntax: false,
        angle,
        stops,
    }
}

impl GeckoBackground {
    /// Whether the struct holds the initial values.
    pub open spec fn is_initial(self) -> bool {
        &&& self.wf()
        &&& self.gecko.background_color == 0
        &&& self.gecko.image.layers@.len() == 1
        &&& self.gecko.image.layers@[0].image is Null
        &&& is_new_layer(self.gecko.image.layers@[0])
        &&& self.gecko.image.image_count == 1
        &&& self.gecko.image.repeat_count == 1
        &&& self.gecko.image.clip_count == 1
        &&& self.gecko.image.origin_count == 1
        &&& self.gecko.image.attachment_count == 1
        &&& self.gecko.image.position_x_count == 1
        &&& self.gecko.image.position_y_count == 1
    }

    /// The initial background struct: a transparent color and one layer
    /// without an image.
    pub fn initial() -> (r: Arc<GeckoBackground>)
        ensures
            r.is_initial(),
    {
        let mut layers: Vec<ImageLayer> = Vec::new();
        layers.push(ImageLayer::new());
        Arc::new(GeckoBackground {
            gecko: NsStyleBackground {
                background_color: 0,
                image: NsStyleImageLayers {
                    image_count: 1,
                    repeat_count: 1,
                    clip_count: 1,
                    origin_count: 1,
                    attachment_count: 1,
                    position_x_count: 1,
                    position_y_count: 1,
                    layers,
                },
            },
        })
    }

    /// There is always a first layer.
    pub open spec fn wf(self) -> bool {
        self.gecko.image.layers@.len() >= 1
    }

    /// The first layer.
    pub open spec fn first(self) -> ImageLayer {
        self.gecko.image.layers@[0]
    }

    /// The Gecko struct.
    pub fn get_gecko(&self) -> (r: &NsStyleBackground)
        ensures
            *r == self.gecko,
    {
        &self.gecko
    }

    /// Sets `background-color`; `currentColor` cannot be stored and is
    /// stored as transparent black.
    pub fn set_background_color(&mut self, v: Color)
        ensures
            final(self).gecko.background_color == spec_color_value(v),
            final(self).gecko.image == old(self).gecko.image,
    {
        let result = match v {
            Color::CurrentColor => 0,
            Color::Rgba(rgba) => convert_rgba_to_nscolor(&rgba),
        };
        self.gecko.background_color = result;
    }

    /// Copies `background-color` of another struct.
    pub fn copy_background_color_from(&mut self, other: &Self)
        ensures
            final(self).gecko.background_color == other.gecko.background_color,
            final(self).gecko.image == old(self).gecko.image,
    {
        self.gecko.background_color = other.gecko.background_color;
    }

    /// The computed `background-color`.
    pub fn clone_background_color(&self) -> (r: Color)
        ensures
            r == Color::Rgba(spec_rgba_of(self.gecko.background_color)),
    {
        Color::Rgba(convert_nscolor_to_rgba(self.gecko.background_color))
    }

    /// Whether, apart from the counts and first-layer fields named, the
    /// struct keeps its value.
    pub open spec fn first_layer_changed_only(old: Self, new: Self) -> bool {
        &&& new.gecko.background_color == old.gecko.background_color
        &&& new.gecko.image.image_count == old.gecko.image.image_count
        &&& new.gecko.image.layers@.len() == old.gecko.image.layers@.len()
        &&& forall|j: int| 1 <= j < old.gecko.image.layers@.len() ==> new.gecko.image.layers@[j] == old.gecko.image.layers@[j]
        &&& new.first().image == old.first().image
    }

    /// Copies `background-repeat` of another struct: the first layer's repeat,
    /// with a repeat count of at most one.
    pub fn copy_background_repeat_from(&mut self, other: &Self)
        requires
            old(self).wf(),
            other.wf(),
        ensures
            final(self).wf(),
            final(self).gecko.image.repeat_count == if other.gecko.image.repeat_count < 1 { other.gecko.image.repeat_count } else { 1 },
            final(self).first().repeat == other.first().repeat,
            Self::first_layer_changed_only(*old(self), *final(self)),
            final(self).first().clip == old(self).first().clip && final(self).first().origin == old(self).first().origin
                && final(self).first().attachment == old(self).first().attachment
                && final(self).first().position == old(self).first().position,
            final(self).gecko.image.clip_count == old(self).gecko.image.clip_count
                && final(self).gecko.image.origin_count == old(self).gecko.image.origin_count
                && final(self).gecko.image.attachment_count == old(self).gecko.image.attachment_count
                && final(self).gecko.image.position_x_count == old(self).gecko.image.position_x_count
                && final(self).gecko.image.position_y_count == old(self).gecko.image.position_y_count,
    {
        let c = other.gecko.image.repeat_count;
        self.gecko.image.repeat_count = if c < 1 { c } else { 1 };
        self.gecko.image.layers[0].repeat = other.gecko.image.layers[0].repeat;
    }

    /// Sets `background-repeat` on the first layer, with a repeat count of one.
    pub fn set_background_repeat(&mut self, v: BackgroundRepeat)
        requires
            old(self).wf(),
        ensures
            final(self).wf(),
            final(self).gecko.image.repeat_count == 1,
            final(self).first().repeat == spec_repeat_of(v),
            Self::first_layer_changed_only(*old(self), *final(self)),
            final(self).first().clip == old(self).first().clip && final(self).first().origin == old(self).first().origin
                && final(self).first().attachment == old(self).first().attachment
                && final(self).first().position == old(self).first().position,
            final(self).gecko.image.clip_count == old(self).gecko.image.clip_count
                && final(self).gecko.image.origin_count == old(self).gecko.image.origin_count
                && final(self).gecko.image.attachment_count == old(self).gecko.image.attachment_count
                && final(self).gecko.image.position_x_count == old(self).gecko.image.position_x_count
                && final(self).gecko.image.position_y_count == old(self).gecko.image.position_y_count,
    {
        let (repeat_x, repeat_y) = match v {
            BackgroundRepeat::RepeatX => (consts::NS_STYLE_IMAGELAYER_REPEAT_REPEAT, consts::NS_STYLE_IMAGELAYER_REPEAT_NO_REPEAT),
            BackgroundRepeat::RepeatY => (consts::NS_STYLE_IMAGELAYER_REPEAT_NO_REPEAT, consts::NS_STYLE_IMAGELAYER_REPEAT_REPEAT),
            BackgroundRepeat::Repeat => (consts::NS_STYLE_IMAGELAYER_REPEAT_REPEAT, consts::NS_STYLE_IMAGELAYER_REPEAT_REPEAT),
            BackgroundRepeat::NoRepeat => (consts::NS_STYLE_IMAGELAYER_REPEAT_NO_REPEAT, consts::NS_STYLE_IMAGELAYER_REPEAT_NO_REPEAT),
        };
        self.gecko.image.repeat_count = 1;
        self.gecko.image.layers[0].repeat = Repeat { x_repeat: repeat_x, y_repeat: repeat_y };
    }

    /// Copies `background-clip` of another struct: the first layer's clip,
    /// with a clip count of at most one.
    pub fn copy_background_clip_from(&mut self, other: &Self)
        requires
            old(self).wf(),
            other.wf(),
        ensures
            final(self).wf(),
            final(self).gecko.image.clip_count == if other.gecko.image.clip_count < 1 { other.gecko.image.clip_count } else { 1 },
            final(self).first().clip == other.first().clip,
            Self::first_layer_changed_only(*old(self), *final(self)),
            final(self).first().repeat == old(self).first().repeat && final(self).first().origin == old(self).first().origin
                && final(self).first().attachment == old(self).first().attachment
                && final(self).first().position == old(self).first().position,
            final(self).gecko.image.repeat_count == old(self).gecko.image.repeat_count
                && final(self).gecko.image.origin_count == old(self).gecko.image.origin_count
                && final(self).gecko.image.attachment_count == old(self).gecko.image.attachment_count
                && final(self).gecko.image.position_x_count == old(self).gecko.image.position_x_count
                && final(self).gecko.image.position_y_count == old(self).gecko.image.position_y_count,
    {
        let c = other.gecko.image.clip_count;
        self.gecko.image.clip_count = if c < 1 { c } else { 1 };
        self.gecko.image.layers[0].clip = other.gecko.image.layers[0].clip;
    }

    /// Sets `background-clip` on the first layer, with a clip count of one.
    pub fn set_background_clip(&mut self, v: BackgroundBox)
        requires
            old(self).wf(),
        ensures
            final(self).wf(),
            final(self).gecko.image.clip_count == 1,
            final(self).first().clip == spec_clip_of(v),
            Self::first_layer_changed_only(*old(self), *final(self)),
            final(self).first().repeat == old(self).first().repeat && final(self).first().origin == old(self).first().origin
                && final(self).first().attachment == old(self).first().attachment
                && final(self).first().position == old(self).first().position,
            final(self).gecko.image.repeat_count == old(self).gecko.image.repeat_count
                && final(self).gecko.image.origin_count == old(self).gecko.image.origin_count
                && final(self).gecko.image.attachment_count == old(self).gecko.image.attachment_count
                && final(self).gecko.image.position_x_count == old(self).gecko.image.position_x_count
                && final(self).gecko.image.position_y_count == old(self).gecko.image.position_y_count,
    {
        self.gecko.image.clip_count = 1;
        self.gecko.image.layers[0].clip = match v {
            BackgroundBox::BorderBox => consts::NS_STYLE_IMAGELAYER_CLIP_BORDER,
            BackgroundBox::PaddingBox => consts::NS_STYLE_IMAGELAYER_CLIP_PADDING,
            BackgroundBox::ContentBox => consts::NS_STYLE_IMAGELAYER_CLIP_CONTENT,
        };
    }

    /// Copies `background-origin` of another struct: the first layer's
    /// origin, with an origin count of at most one.
    pub fn copy_background_origin_from(&mut self, other: &Self)
        requires
            old(self).wf(),
            other.wf(),
        ensures
            final(self).wf(),
            final(self).gecko.image.origin_count == if other.gecko.image.origin_count < 1 { other.gecko.image.origin_count } else { 1 },
            final(self).first().origin == other.first().origin,
            Self::first_layer_changed_only(*old(self), *final(self)),
            final(self).first().repeat == old(self).first().repeat && final(self).first().clip == old(self).first().clip
                && final(self).first().attachment == old(self).first().attachment
                && final(self).first().position == old(self).first().position,
            final(self).gecko.image.repeat_count == old(self).gecko.image.repeat_count
                && final(self).gecko.image.clip_count == old(self).gecko.image.clip_count
                && final(self).gecko.image.attachment_count == old(self).gecko.image.attachment_count
                && final(self).gecko.image.position_x_count == old(self).gecko.image.position_x_count
                && final(self).gecko.image.position_y_count == old(self).gecko.image.position_y_count,
    {
        let c = other.gecko.image.origin_count;
        self.gecko.image.origin_count = if c < 1 { c } else { 1 };
        self.gecko.image.layers[0].origin = other.gecko.image.layers[0].origin;
    }

    /// Sets `background-origin` on the first layer, with an origin count of one.
    pub fn set_background_origin(&mut self, v: BackgroundBox)
        requires
            old(self).wf(),
        ensures
            final(self).wf(),
            final(self).gecko.image.origin_count == 1,
            final(self).first().origin == spec_origin_of(v),
            Self::first_layer_changed_only(*old(self), *final(self)),
            final(self).first().repeat == old(self).first().repeat && final(self).first().clip == old(self).first().clip
                && final(self).first().attachment == old(self).first().attachment
                && final(self).first().position == old(self).first().position,
            final(self).gecko.image.repeat_count == old(self).gecko.image.repeat_count
                && final(self).gecko.image.clip_count == old(self).gecko.image.clip_count
                && final(self).gecko.image.attachment_count == old(self).gecko.image.attachment_count
                && final(self).gecko.image.position_x_count == old(self).gecko.image.position_x_count
                && final(self).gecko.image.position_y_count == old(self).gecko.image.position_y_count,
    {
        self.gecko.image.origin_count = 1;
        self.gecko.image.layers[0].origin = match v {
            BackgroundBox::BorderBox => consts::NS_STYLE_IMAGELAYER_ORIGIN_BORDER,
            BackgroundBox::PaddingBox => consts::NS_STYLE_IMAGELAYER_ORIGIN_PADDING,
            BackgroundBox::ContentBox => consts::NS_STYLE_IMAGELAYER_ORIGIN_CONTENT,
        };
    }

    /// Copies `background-attachment` of another struct: the first layer's
    /// attachment, with an attachment count of at most one.
    pub fn copy_background_attachment_from(&mut self, other: &Self)
        requires
            old(self).wf(),
            other.wf(),
        ensures
            final(self).wf(),
            final(self).gecko.image.attachment_count == if other.gecko.image.attachment_count < 1 { other.gecko.image.attachment_count } else { 1 },
            final(self).first().attachment == other.first().attachment,
            Self::first_layer_changed_only(*old(self), *final(self)),
            final(self).first().repeat == old(self).first().repeat && final(self).first().clip == old(self).first().clip
                && final(self).first().origin == old(self).first().origin
                && final(self).first().position == old(self).first().position,
            final(self).gecko.image.repeat_count == old(self).gecko.image.repeat_count
                && final(self).gecko.image.clip_count == old(self).gecko.image.clip_count
                && final(self).gecko.image.origin_count == old(self).gecko.image.origin_count
                && final(self).gecko.image.position_x_count == old(self).gecko.image.position_x_count
                && final(self).gecko.image.position_y_count == old(self).gecko.image.position_y_count,
    {
        let c = other.gecko.image.attachment_count;
        self.gecko.image.attachment_count = if c < 1 { c } else { 1 };
        self.gecko.image.layers[0].attachment = other.gecko.image.layers[0].attachment;
    }

    /// Sets `background-attachment` on the first layer, with an attachment count of one.
    pub fn set_background_attachment(&mut self, v: BackgroundAttachment)
        requires
            old(self).wf(),
        ensures
            final(self).wf(),
            final(self).gecko.image.attachment_count == 1,
            final(self).first().attachment == spec_attachment_of(v),
            Self::first_layer_changed_only(*old(self), *final(self)),
            final(self).first().repeat == old(self).first().repeat && final(self).first().clip == old(self).first().clip
                && final(self).first().origin == old(self).first().origin
                && final(self).first().position == old(self).first().position,
            final(self).gecko.image.repeat_count == old(self).gecko.image.repeat_count
                && final(self).gecko.image.clip_count == old(self).gecko.image.clip_count
                && final(self).gecko.image.origin_count == old(self).gecko.image.origin_count
                && final(self).gecko.image.position_x_count == old(self).gecko.image.position_x_count
                && final(self).gecko.image.position_y_count == old(self).gecko.image.position_y_count,
    {
        self.gecko.image.attachment_count = 1;
        self.gecko.image.layers[0].attachment = match v {
            BackgroundAttachment::Scroll => consts::NS_STYLE_IMAGELAYER_ATTACHMENT_SCROLL,
            BackgroundAttachment::Fixed => consts::NS_STYLE_IMAGELAYER_ATTACHMENT_FIXED,
            BackgroundAttachment::Local => consts::NS_STYLE_IMAGELAYER_ATTACHMENT_LOCAL,
        };
    }

    /// Copies `background-position` of another struct: the first layer's
    /// position, with position counts of at most one.
    pub fn copy_background_position_from(&mut self, other: &Self)
        requires
            old(self).wf(),
            other.wf(),
        ensures
            final(self).wf(),
            final(self).gecko.image.position_x_count == if other.gecko.image.position_x_count < 1 { other.gecko.image.position_x_count } else { 1 },
            final(self).gecko.image.position_y_count == if other.gecko.image.position_y_count < 1 { other.gecko.image.position_y_count } else { 1 },
            final(self).first().position == other.first().position,
            Self::first_layer_changed_only(*old(self), *final(self)),
            final(self).first().repeat == old(self).first().repeat && final(self).first().clip == old(self).first().clip
                && final(self).first().origin == old(self).first().origin
                && final(self).first().attachment == old(self).first().attachment,
            final(self).gecko.image.repeat_count == old(self).gecko.image.repeat_count
                && final(self).gecko.image.clip_count == old(self).gecko.image.clip_count
                && final(self).gecko.image.origin_count == old(self).gecko.image.origin_count
                && final(self).gecko.image.attachment_count == old(self).gecko.image.attachment_count,
    {
        let cx = other.gecko.image.position_x_count;
        let cy = other.gecko.image.position_y_count;
        self.gecko.image.position_x_count = if cx < 1 { cx } else { 1 };
        self.gecko.image.position_y_count = if cy < 1 { cy } else { 1 };
        self.gecko.image.layers[0].position = other.gecko.image.layers[0].position;
    }

    /// The computed `background-position` of the first layer.
    pub fn clone_background_position(&self) -> (r: Position)
        requires
            self.wf(),
        ensures
            r.horizontal == spec_lop_of_position_coord(self.first().position.x_position),
            r.vertical == spec_lop_of_position_coord(self.first().position.y_position),
    {
        let position = self.gecko.image.layers[0].position;
        Position { horizontal: lop_of_position_coord(position.x_position), vertical: lop_of_position_coord(position.y_position) }
    }

    /// Sets `background-position` on the first layer, with position counts of one.
    pub fn set_background_position(&mut self, v: Position)
        requires
            old(self).wf(),
        ensures
            final(self).wf(),
            final(self).first().position == (LayerPosition {
                x_position: spec_position_coord_of(v.horizontal),
                y_position: spec_position_coord_of(v.vertical),
            }),
            final(self).gecko.image.position_x_count == 1,
            final(self).gecko.image.position_y_count == 1,
            Self::first_layer_changed_only(*old(self), *final(self)),
            final(self).first().repeat == old(self).first().repeat && final(self).first().clip == old(self).first().clip
                && final(self).first().origin == old(self).first().origin
                && final(self).first().attachment == old(self).first().attachment,
            final(self).gecko.image.repeat_count == old(self).gecko.image.repeat_count
                && final(self).gecko.image.clip_count == old(self).gecko.image.clip_count
                && final(self).gecko.image.origin_count == old(self).gecko.image.origin_count
                && final(self).gecko.image.attachment_count == old(self).gecko.image.attachment_count,
    {
        let p = LayerPosition {
            x_position: position_coord_of(v.horizontal),
            y_position: position_coord_of(v.vertical),
        };
        self.gecko.image.layers[0].position = p;
        self.gecko.image.position_x_count = 1;
        self.gecko.image.position_y_count = 1;
    }

    /// Copies the image of the first layer of another struct.
    pub fn copy_background_image_from(&mut self, other: &Self)
        requires
            old(self).wf(),
            other.wf(),
        ensures
            final(self).wf(),
            same_image(final(self).first().image, other.first().image),
            same_but_image(final(self).first(), old(self).first()),
            final(self).gecko.background_color == old(self).gecko.background_color,
            final(self).gecko.image.layers@.len() == old(self).gecko.image.layers@.len(),
            forall|j: int| 1 <= j < old(self).gecko.image.layers@.len() ==> final(self).gecko.image.layers@[j] == old(self).gecko.image.layers@[j],
            counts_unchanged(old(self).gecko.image, final(self).gecko.image),
            final(self).gecko.image.image_count == old(self).gecko.image.image_count,
    {
        let img = copy_image(&other.gecko.image.layers[0].image);
        self.gecko.image.layers[0].image = img;
    }

    /// Sets `background-image`: one layer per image. Every layer first loses
    /// its image, there are made to be at least as many layers as images,
    /// and every layer is initialized for a background (repeat, position and
    /// origin go back to their initial values). Then each linear gradient is
    /// stored in its layer; a URL image leaves its layer without an image.
    /// A gradient with `u32::MAX` stops or more stops the work: it and the
    /// images after it are left unset.
    pub fn set_background_image(&mut self, images: Vec<Option<Image>>)
        requires
            old(self).wf(),
        ensures
            final(self).wf(),
            final(self).gecko.image.layers@.len() == if images@.len() > old(self).gecko.image.layers@.len() {
                images@.len()
            } else {
                old(self).gecko.image.layers@.len()
            },
            forall|j: int| 0 <= j < final(self).gecko.image.layers@.len() ==> layer_initialized(
                if j < old(self).gecko.image.layers@.len() { Some(old(self).gecko.image.layers@[j]) } else { None },
                #[trigger] final(self).gecko.image.layers@[j]),
            forall|j: int| 0 <= j < final(self).gecko.image.layers@.len() ==> if j < images@.len() && images_fit_through(images@, j) {
                image_stored(images@[j], #[trigger] final(self).gecko.image.layers@[j].image)
            } else {
                final(self).gecko.image.layers@[j].image is Null
            },
            final(self).gecko.image.image_count == if (final(self).gecko.image.layers@.len() as u32) < old(self).gecko.image.image_count {
                old(self).gecko.image.image_count
            } else {
                final(self).gecko.image.layers@.len() as u32
            },
            counts_unchanged(old(self).gecko.image, final(self).gecko.image),
            final(self).gecko.background_color == old(self).gecko.background_color,
    {
        let n_old = self.gecko.image.layers.len();
        // No image of an earlier value stays behind.
        let mut j: usize = 0;
        while j < n_old
            invariant
                old(self).wf(),
                j <= n_old,
                n_old == old(self).gecko.image.layers@.len(),
                self.gecko.image.layers@.len() == n_old,
                forall|k: int| 0 <= k < n_old ==> same_but_image(#[trigger] self.gecko.image.layers@[k], old(self).gecko.image.layers@[k]),
                forall|k: int| 0 <= k < j ==> (#[trigger] self.gecko.image.layers@[k]).image is Null,
                counts_unchanged(old(self).gecko.image, self.gecko.image),
                self.gecko.image.image_count == old(self).gecko.image.image_count,
                self.gecko.background_color == old(self).gecko.background_color,
            decreases n_old - j,
        {
            self.gecko.image.layers[j].image = StyleImage::Null;
            j = j + 1;
        }
        // There are at least as many layers as images.
        let n = images.len();
        while self.gecko.image.layers.len() < n
            invariant
                n == images@.len(),
                n_old == old(self).gecko.image.layers@.len(),
                n_old <= self.gecko.image.layers@.len(),
                self.gecko.image.layers@.len() <= if n > n_old { n } else { n_old },
                forall|k: int| 0 <= k < n_old ==> same_but_image(#[trigger] self.gecko.image.layers@[k], old(self).gecko.image.layers@[k]),
                forall|k: int| 0 <= k < self.gecko.image.layers@.len() ==> (#[trigger] self.gecko.image.layers@[k]).image is Null,
                forall|k: int| n_old <= k < self.gecko.image.layers@.len() ==> is_new_layer(#[trigger] self.gecko.image.layers@[k]),
                counts_unchanged(old(self).gecko.image, self.gecko.image),
                self.gecko.image.image_count == old(self).gecko.image.image_count,
                self.gecko.background_color == old(self).gecko.background_color,
            decreases n - self.gecko.image.layers@.len(),
        {
            self.gecko.image.layers.push(ImageLayer::new());
        }
        // Every layer is initialized for a background.
        let len = self.gecko.image.layers.len();
        let mut j: usize = 0;
        while j < len
            invariant
                n == images@.len(),
                n_old == old(self).gecko.image.layers@.len(),
                len == self.gecko.image.layers@.len(),
                len == if n > n_old { n } else { n_old },
                j <= len,
                forall|k: int| j <= k < n_old ==> same_but_image(#[trigger] self.gecko.image.layers@[k], old(self).gecko.image.layers@[k]),
                forall|k: int| 0 <= k < len ==> (#[trigger] self.gecko.image.layers@[k]).image is Null,
                forall|k: int| n_old <= k < len ==> is_new_layer(#[trigger] self.gecko.image.layers@[k]),
                forall|k: int| 0 <= k < j ==> layer_initialized(
                    if k < n_old { Some(old(self).gecko.image.layers@[k]) } else { None }, #[trigger] self.gecko.image.layers@[k]),
                counts_unchanged(old(self).gecko.image, self.gecko.image),
                self.gecko.image.image_count == old(self).gecko.image.image_count,
                self.gecko.background_color == old(self).gecko.background_color,
            decreases len - j,
        {
            self.gecko.image.layers[j].repeat = Repeat {
                x_repeat: consts::NS_STYLE_IMAGELAYER_REPEAT_REPEAT,
                y_repeat: consts::NS_STYLE_IMAGELAYER_REPEAT_REPEAT,
            };
            self.gecko.image.layers[j].position = LayerPosition {
                x_position: CalcValue { length: 0, percent: CssFloat(0), has_percent: true },
                y_position: CalcValue { length: 0, percent: CssFloat(0), has_percent: true },
            };
            self.gecko.image.layers[j].origin = consts::NS_STYLE_IMAGELAYER_ORIGIN_PADDING;
            j = j + 1;
        }
        let count = #[verifier::truncate] (len as u32);
        if count >= self.gecko.image.image_count {
            self.gecko.image.image_count = count;
        }
        let ghost init = self.gecko.image.layers@;
        // Each image is stored in its layer.
        let mut j: usize = 0;
        while j < n
            invariant
                n == images@.len(),
                n_old == old(self).gecko.image.layers@.len(),
                len == self.gecko.image.layers@.len(),
                len == if n > n_old { n } else { n_old },
                init.len() == len,
                j <= n,
                forall|k: int| 0 <= k < len ==> same_but_image(#[trigger] self.gecko.image.layers@[k], init[k]),
                forall|k: int| 0 <= k < len ==> layer_initialized(
                    if k < n_old { Some(old(self).gecko.image.layers@[k]) } else { None }, #[trigger] init[k]),
                forall|k: int| 0 <= k < j ==> image_fits(#[trigger] images@[k]),
                forall|k: int| 0 <= k < j ==> image_stored(images@[k], #[trigger] self.gecko.image.layers@[k].image),
                forall|k: int| j <= k < len ==> (#[trigger] self.gecko.image.layers@[k]).image is Null,
                counts_unchanged(old(self).gecko.image, self.gecko.image),
                self.gecko.image.image_count == if (len as u32) < old(self).gecko.image.image_count {
                    old(self).gecko.image.image_count
                } else {
                    len as u32
                },
                self.gecko.background_color == old(self).gecko.background_color,
            decreases n - j,
        {
            match &images[j] {
                Some(Image::LinearGradient(g)) => {
                    if g.stops.len() >= u32::MAX as usize {
                        assert(!image_fits(images@[j as int]));
                        assert forall|k: int| 0 <= k < len implies if k < n && images_fit_through(images@, k) {
                            image_stored(images@[k], #[trigger] self.gecko.image.layers@[k].image)
                        } else {
                            self.gecko.image.layers@[k].image is Null
                        } by {
                            if k >= j && k < n {
                                assert(!image_fits(images@[j as int]));
                            }
                        }
                        assert forall|k: int| 0 <= k < len implies layer_initialized(
                            if k < n_old { Some(old(self).gecko.image.layers@[k]) } else { None },
                            #[trigger] self.gecko.image.layers@[k]) by {
                            assert(same_but_image(self.gecko.image.layers@[k], init[k]));
                        }
                        return;
                    }
                    let sg = gradient_of(g);
                    self.gecko.image.layers[j].image = StyleImage::Gradient(sg);
                },
                Some(Image::Url(..)) => {
                    // URL images cannot be stored: the layer keeps no image.
                },
                None => {},
            }
            j = j + 1;
        }
        assert forall|k: int| 0 <= k < len implies if k < n && images_fit_through(images@, k) {
            image_stored(images@[k], #[trigger] self.gecko.image.layers@[k].image)
        } else {
            self.gecko.image.layers@[k].image is Null
        } by {
            if k < n {
                assert(images_fit_through(images@, k));
            }
        }
        assert forall|k: int| 0 <= k < len implies layer_initialized(
            if k < n_old { Some(old(self).gecko.image.layers@[k]) } else { None },
            #[trigger] self.gecko.image.layers@[k]) by {
            assert(same_but_image(self.gecko.image.layers@[k], init[k]));
        }
    }
}

impl GeckoBackground {
    /// Whether two structs hold the same values.
    pub open spec fn same_as(self, other: Self) -> bool {
        &&& self.gecko.background_color == other.gecko.background_color
        &&& self.gecko.image.image_count == other.gecko.image.image_count
        &&& counts_unchanged(self.gecko.image, other.gecko.image)
        &&& self.gecko.image.layers@.len() == other.gecko.image.layers@.len()
        &&& forall|j: int| 0 <= j < self.gecko.image.layers@.len() ==> {
            &&& same_but_image(#[trigger] self.gecko.image.layers@[j], other.gecko.image.layers@[j])
            &&& same_image(self.gecko.image.layers@[j].image, other.gecko.image.layers@[j].image)
        }
    }
}

impl Clone for GeckoBackground {
    fn clone(&self) -> (r: Self)
        ensures
            r.same_as(*self),
    {
        let mut layers: Vec<ImageLayer> = Vec::new();
        let n = self.gecko.image.layers.len();
        let mut i: usize = 0;
        while i < n
            invariant
                n == self.gecko.image.layers@.len(),
                i <= n,
                layers@.len() == i,
                forall|j: int| 0 <= j < i ==> {
                    &&& same_but_image(#[trigger] layers@[j], self.gecko.image.layers@[j])
                    &&& same_image(layers@[j].image, self.gecko.image.layers@[j].image)
                },
            decreases n - i,
        {
            let l = &self.gecko.image.layers[i];
            let copy = ImageLayer {
                image: copy_image(&l.image),
                repeat: l.repeat,
                clip: l.clip,
                origin: l.origin,
                attachment: l.attachment,
                position: l.position,
            };
            layers.push(copy);
            i = i + 1;
        }
        GeckoBackground {
            gecko: NsStyleBackground {
                background_color: self.gecko.background_color,
                image: NsStyleImageLayers {
                    image_count: self.gecko.image.image_count,
                    repeat_count: self.gecko.image.repeat_count,
                    clip_count: self.gecko.image.clip_count,
                    origin_count: self.gecko.image.origin_count,
                    attachment_count: self.gecko.image.attachment_count,
                    position_x_count: self.gecko.image.position_x_count,
                    position_y_count: self.gecko.image.position_y_count,
                    layers,
                },
            },
        }
    }
}

/// Whether two layers agree on everything but their image.
pub open spec fn same_but_image(a: ImageLayer, b: ImageLayer) -> bool {
    &&& a.repeat == b.repeat
    &&& a.clip == b.clip
    &&& a.origin == b.origin
    &&& a.attachment == b.attachment
    &&& a.position == b.position
}

/// Whether a layer is as `ImageLayer::new` makes it.
pub open spec fn is_new_layer(l: ImageLayer) -> bool {
    &&& l.repeat == spec_initial_repeat()
    &&& l.clip == consts::NS_STYLE_IMAGELAYER_CLIP_BORDER
    &&& l.origin == consts::NS_STYLE_IMAGELAYER_ORIGIN_PADDING
    &&& l.attachment == consts::NS_STYLE_IMAGELAYER_ATTACHMENT_SCROLL
    &&& l.position == spec_initial_position()
}

/// Whether a layer is the result of initializing a layer for a background:
/// repeat, position and origin take their initial values, and clip and
/// attachment are kept (a layer that did not exist before takes the values
/// of a new layer).
pub open spec fn layer_initialized(before: Option<ImageLayer>, l: ImageLayer) -> bool {
    &&& l.repeat == spec_initial_repeat()
    &&& l.position == spec_initial_position()
    &&& l.origin == consts::NS_STYLE_IMAGELAYER_ORIGIN_PADDING
    &&& match before {
        Some(b) => l.clip == b.clip && l.attachment == b.attachment,
        None => l.clip == consts::NS_STYLE_IMAGELAYER_CLIP_BORDER
            && l.attachment == consts::NS_STYLE_IMAGELAYER_ATTACHMENT_SCROLL,
    }
}

/// Whether the per-property layer counts, other than the image count, are the same.
pub open spec fn counts_unchanged(a: NsStyleImageLayers, b: NsStyleImageLayers) -> bool {
    &&& a.repeat_count == b.repeat_count
    &&& a.clip_count == b.clip_count
    &&& a.origin_count == b.origin_count
    &&& a.attachment_count == b.attachment_count
    &&& a.position_x_count == b.position_x_count
    &&& a.position_y_count == b.position_y_count
}

/// Whether two stored images are the same: both none, or gradients with the
/// same fields and stops.
pub open spec fn same_image(a: StyleImage, b: StyleImage) -> bool {
    match (a, b) {
        (StyleImage::Null, StyleImage::Null) => true,
        (StyleImage::Gradient(x), StyleImage::Gradient(y)) => {
            &&& x.shape == y.shape
            &&& x.size == y.size
            &&& x.repeating == y.repeating
            &&& x.legacy_syntax == y.legacy_syntax
            &&& x.angle == y.angle
            &&& x.stops@ == y.stops@
        },
        _ => false,
    }
}

/// A copy of a stored image.
fn copy_image(img: &StyleImage) -> (r: StyleImage)
    ensures
        same_image(r, *img),
{
    match img {
        StyleImage::Null => StyleImage::Null,
        StyleImage::Gradient(g) => {
            let mut stops: Vec<GradientStop> = Vec::new();
            let n = g.stops.len();
            let mut i: usize = 0;
            while i < n
                invariant
                    n == g.stops@.len(),
                    i <= n,
                    stops@ == g.stops@.take(i as int),
                decreases n - i,
            {
                stops.push(g.stops[i]);
                assert(g.stops@.take(i + 1) =~= g.stops@.take(i as int).push(g.stops@[i as int]));
                i = i + 1;
            }
            assert(g.stops@.take(n as int) =~= g.stops@);
            StyleImage::Gradient(StyleGradient {
                shape: g.shape,
                size: g.size,
                repeating: g.repeating,
                legacy_syntax: g.legacy_syntax,
                angle: g.angle,
                stops,
            })
        },
    }
}

/// The position coordinate stored for a `<length-percentage>`.
pub fn position_coord_of(v: LengthOrPercentage) -> (r: CalcValue)
    ensures
        r == spec_position_coord_of(v),
{
    match v {
        LengthOrPercentage::Length(au) => CalcValue { length: au.0, percent: CssFloat(0), has_percent: false },
        LengthOrPercentage::Percentage(p) => CalcValue { length: 0, percent: p, has_percent: true },
        LengthOrPercentage::Calc(c) => calc_to_gecko(c),
    }
}

/// The `<length-percentage>` a position coordinate stands for.
pub fn lop_of_position_coord(c: CalcValue) -> (r: LengthOrPercentage)
    ensures
        r == spec_lop_of_position_coord(c),
{
    if !c.has_percent {
        LengthOrPercentage::Length(Au(c.length))
    } else if c.length == 0 {
        LengthOrPercentage::Percentage(c.percent)
    } else {
        LengthOrPercentage::Calc(calc_from_gecko(c))
    }
}

/// A layer repeats along x exactly for `repeat` and `repeat-x`, and along y
/// exactly for `repeat` and `repeat-y`; along any other axis it does not repeat.
pub proof fn lemma_repeat_axes(v: BackgroundRepeat)
    ensures
        spec_repeat_of(v).x_repeat == if v == BackgroundRepeat::Repeat || v == BackgroundRepeat::RepeatX {
            consts::NS_STYLE_IMAGELAYER_REPEAT_REPEAT
        } else {
            consts::NS_STYLE_IMAGELAYER_REPEAT_NO_REPEAT
        },
        spec_repeat_of(v).y_repeat == if v == BackgroundRepeat::Repeat || v == BackgroundRepeat::RepeatY {
            consts::NS_STYLE_IMAGELAYER_REPEAT_REPEAT
        } else {
            consts::NS_STYLE_IMAGELAYER_REPEAT_NO_REPEAT
        },
{
}

/// Each clip, origin and attachment keyword is stored as the Gecko constant
/// of the same name.
pub proof fn lemma_layer_keyword_tables()
    ensures
        spec_clip_of(BackgroundBox::BorderBox) == consts::NS_STYLE_IMAGELAYER_CLIP_BORDER,
        spec_clip_of(BackgroundBox::PaddingBox) == consts::NS_STYLE_IMAGELAYER_CLIP_PADDING,
        spec_clip_of(BackgroundBox::ContentBox) == consts::NS_STYLE_IMAGELAYER_CLIP_CONTENT,
        spec_origin_of(BackgroundBox::BorderBox) == consts::NS_STYLE_IMAGELAYER_ORIGIN_BORDER,
        spec_origin_of(BackgroundBox::PaddingBox) == consts::NS_STYLE_IMAGELAYER_ORIGIN_PADDING,
        spec_origin_of(BackgroundBox::ContentBox) == consts::NS_STYLE_IMAGELAYER_ORIGIN_CONTENT,
        spec_attachment_of(BackgroundAttachment::Scroll) == consts::NS_STYLE_IMAGELAYER_ATTACHMENT_SCROLL,
        spec_attachment_of(BackgroundAttachment::Fixed) == consts::NS_STYLE_IMAGELAYER_ATTACHMENT_FIXED,
        spec_attachment_of(BackgroundAttachment::Local) == consts::NS_STYLE_IMAGELAYER_ATTACHMENT_LOCAL,
{
}

/// A background position survives being stored and read back, except a
/// calc() with no percentage (read back as a length) and a calc() with a
/// zero length and a percentage (read back as a percentage).
pub proof fn lemma_position_coord_roundtrip(v: LengthOrPercentage)
    requires
        v matches LengthOrPercentage::Calc(c) ==> (c.percentage is Some && c.length.0 != 0),
    ensures
        spec_lop_of_position_coord(spec_position_coord_of(v)) == v,
{
}

/// A gradient angle is stored in radians and a corner leaves the angle unset;
/// a color stop keeps its position as a coordinate and its color as an
/// `nscolor`, and is never an interpolation hint.
pub proof fn lemma_gradient_units(r: CssFloat, h: HorizontalDirection, v: VerticalDirection, s: ColorStop)
    ensures
        spec_gradient_angle(AngleOrCorner::Angle(r)) == CoordDataValue::Radian(r),
        spec_gradient_angle(AngleOrCorner::Corner(h, v)) == CoordDataValue::Null,
        spec_stop_of(s).location.value == spec_opt_lop_to_coord(s.position),
        spec_stop_of(s).color == spec_color_value(s.color),
        !spec_stop_of(s).is_interpolation_hint,
{
}

} // verus!
