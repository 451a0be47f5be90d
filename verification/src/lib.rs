//! Gecko style structs modelled as plain values, with the conversions between
//! computed CSS values and Gecko's stored representation.

pub mod consts;
pub mod units;
pub mod color;
pub mod coord;
pub mod keywords;
pub mod style_bits;
pub mod border;
pub mod sides;
pub mod outline;
pub mod margin;
pub mod padding;
pub mod position;
pub mod font;
pub mod box_struct;
pub mod background;
pub mod pointing;
pub mod list;
pub mod color_struct;
pub mod svg;
pub mod column;
pub mod inherited_text;
pub mod text;
pub mod computed_values;
pub mod style_structs;
