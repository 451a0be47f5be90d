//! The style structs under the names of their groups of properties.
pub use crate::background::GeckoBackground as Background;
pub use crate::border::GeckoBorder as Border;
pub use crate::box_struct::GeckoBox as Box;
pub use crate::color_struct::GeckoColor as Color;
pub use crate::column::GeckoColumn as Column;
pub use crate::font::GeckoFont as Font;
pub use crate::inherited_text::GeckoInheritedText as InheritedText;
pub use crate::list::GeckoList as List;
pub use crate::margin::GeckoMargin as Margin;
pub use crate::outline::GeckoOutline as Outline;
pub use crate::padding::GeckoPadding as Padding;
pub use crate::pointing::GeckoPointing as Pointing;
pub use crate::position::GeckoPosition as Position;
pub use crate::svg::GeckoSVG as SVG;
pub use crate::text::GeckoText as Text;
