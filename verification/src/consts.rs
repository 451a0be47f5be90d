//! Constants of Gecko's style system (nsStyleConsts.h) that the stored
//! representations use.
use vstd::prelude::*;

verus! {

// Border style field layout: the low bits hold the style keyword, the high
// bits hold flags about the matching border color.
pub const BORDER_STYLE_MASK: u8 = 0x1F;
pub const BORDER_COLOR_FOREGROUND: u8 = 0x20;
pub const BORDER_COLOR_TRANSPARENT: u8 = 0x40;
pub const BORDER_COLOR_SPECIAL: u8 = 0x60;

pub const NS_STYLE_BORDER_STYLE_NONE: u8 = 0;
pub const NS_STYLE_BORDER_STYLE_GROOVE: u8 = 1;
pub const NS_STYLE_BORDER_STYLE_RIDGE: u8 = 2;
pub const NS_STYLE_BORDER_STYLE_DOTTED: u8 = 3;
pub const NS_STYLE_BORDER_STYLE_DASHED: u8 = 4;
pub const NS_STYLE_BORDER_STYLE_SOLID: u8 = 5;
pub const NS_STYLE_BORDER_STYLE_DOUBLE: u8 = 6;
pub const NS_STYLE_BORDER_STYLE_INSET: u8 = 7;
pub const NS_STYLE_BORDER_STYLE_OUTSET: u8 = 8;
pub const NS_STYLE_BORDER_STYLE_HIDDEN: u8 = 9;

pub const NS_FONT_STYLE_NORMAL: u8 = 0;
pub const NS_FONT_STYLE_ITALIC: u8 = 1;
pub const NS_FONT_STYLE_OBLIQUE: u8 = 2;

pub const NS_STYLE_DISPLAY_NONE: u8 = 0;
pub const NS_STYLE_DISPLAY_BLOCK: u8 = 1;
pub const NS_STYLE_DISPLAY_INLINE: u8 = 2;
pub const NS_STYLE_DISPLAY_INLINE_BLOCK: u8 = 3;
pub const NS_STYLE_DISPLAY_LIST_ITEM: u8 = 4;
pub const NS_STYLE_DISPLAY_TABLE: u8 = 8;
pub const NS_STYLE_DISPLAY_INLINE_TABLE: u8 = 9;
pub const NS_STYLE_DISPLAY_TABLE_ROW_GROUP: u8 = 10;
pub const NS_STYLE_DISPLAY_TABLE_COLUMN: u8 = 11;
pub const NS_STYLE_DISPLAY_TABLE_COLUMN_GROUP: u8 = 12;
pub const NS_STYLE_DISPLAY_TABLE_HEADER_GROUP: u8 = 13;
pub const NS_STYLE_DISPLAY_TABLE_FOOTER_GROUP: u8 = 14;
pub const NS_STYLE_DISPLAY_TABLE_ROW: u8 = 15;
pub const NS_STYLE_DISPLAY_TABLE_CELL: u8 = 16;
pub const NS_STYLE_DISPLAY_TABLE_CAPTION: u8 = 17;
pub const NS_STYLE_DISPLAY_BOX: u8 = 18;
pub const NS_STYLE_DISPLAY_INLINE_BOX: u8 = 19;
pub const NS_STYLE_DISPLAY_FLEX: u8 = 26;

pub const NS_STYLE_OVERFLOW_VISIBLE: u8 = 0;
pub const NS_STYLE_OVERFLOW_HIDDEN: u8 = 1;
pub const NS_STYLE_OVERFLOW_SCROLL: u8 = 2;
pub const NS_STYLE_OVERFLOW_AUTO: u8 = 3;

pub const NS_STYLE_VERTICAL_ALIGN_BASELINE: u32 = 14;
pub const NS_STYLE_VERTICAL_ALIGN_SUB: u32 = 15;
pub const NS_STYLE_VERTICAL_ALIGN_SUPER: u32 = 16;
pub const NS_STYLE_VERTICAL_ALIGN_TOP: u32 = 17;
pub const NS_STYLE_VERTICAL_ALIGN_TEXT_TOP: u32 = 18;
pub const NS_STYLE_VERTICAL_ALIGN_MIDDLE: u32 = 19;
pub const NS_STYLE_VERTICAL_ALIGN_TEXT_BOTTOM: u32 = 20;
pub const NS_STYLE_VERTICAL_ALIGN_BOTTOM: u32 = 21;
pub const NS_STYLE_VERTICAL_ALIGN_MIDDLE_WITH_BASELINE: u32 = 22;

pub const NS_STYLE_TEXT_ALIGN_START: u8 = 0;
pub const NS_STYLE_TEXT_ALIGN_LEFT: u8 = 1;
pub const NS_STYLE_TEXT_ALIGN_RIGHT: u8 = 2;
pub const NS_STYLE_TEXT_ALIGN_CENTER: u8 = 3;
pub const NS_STYLE_TEXT_ALIGN_JUSTIFY: u8 = 4;
pub const NS_STYLE_TEXT_ALIGN_END: u8 = 6;
pub const NS_STYLE_TEXT_ALIGN_MOZ_CENTER: u8 = 8;
pub const NS_STYLE_TEXT_ALIGN_MOZ_RIGHT: u8 = 9;
pub const NS_STYLE_TEXT_ALIGN_MOZ_LEFT: u8 = 10;
pub const NS_STYLE_TEXT_ALIGN_MATCH_PARENT: u8 = 13;

pub const NS_STYLE_LIST_STYLE_NONE: u32 = 0;
pub const NS_STYLE_LIST_STYLE_DECIMAL: u32 = 1;
pub const NS_STYLE_LIST_STYLE_DISC: u32 = 2;
pub const NS_STYLE_LIST_STYLE_CIRCLE: u32 = 3;
pub const NS_STYLE_LIST_STYLE_SQUARE: u32 = 4;
pub const NS_STYLE_LIST_STYLE_DISCLOSURE_CLOSED: u32 = 5;
pub const NS_STYLE_LIST_STYLE_DISCLOSURE_OPEN: u32 = 6;
pub const NS_STYLE_LIST_STYLE_LOWER_ROMAN: u32 = 100;
pub const NS_STYLE_LIST_STYLE_UPPER_ROMAN: u32 = 101;
pub const NS_STYLE_LIST_STYLE_LOWER_ALPHA: u32 = 102;
pub const NS_STYLE_LIST_STYLE_UPPER_ALPHA: u32 = 103;
pub const NS_STYLE_LIST_STYLE_LOWER_GREEK: u32 = 21;

pub const NS_STYLE_LINE_HEIGHT_BLOCK_HEIGHT: u32 = 0;

pub const NS_STYLE_TEXT_DECORATION_STYLE_NONE: u8 = 0;
pub const NS_STYLE_TEXT_DECORATION_STYLE_DOTTED: u8 = 1;
pub const NS_STYLE_TEXT_DECORATION_STYLE_DASHED: u8 = 2;
pub const NS_STYLE_TEXT_DECORATION_STYLE_SOLID: u8 = 3;
pub const NS_STYLE_TEXT_DECORATION_STYLE_DOUBLE: u8 = 4;
pub const NS_STYLE_TEXT_DECORATION_STYLE_WAVY: u8 = 5;

pub const NS_STYLE_TEXT_DECORATION_LINE_UNDERLINE: u8 = 0x01;
pub const NS_STYLE_TEXT_DECORATION_LINE_OVERLINE: u8 = 0x02;
pub const NS_STYLE_TEXT_DECORATION_LINE_LINE_THROUGH: u8 = 0x04;

pub const NS_STYLE_IMAGELAYER_REPEAT_NO_REPEAT: u8 = 0x00;
pub const NS_STYLE_IMAGELAYER_REPEAT_REPEAT: u8 = 0x03;

pub const NS_STYLE_IMAGELAYER_CLIP_BORDER: u8 = 0;
pub const NS_STYLE_IMAGELAYER_CLIP_PADDING: u8 = 1;
pub const NS_STYLE_IMAGELAYER_CLIP_CONTENT: u8 = 2;

pub const NS_STYLE_IMAGELAYER_ORIGIN_BORDER: u8 = 0;
pub const NS_STYLE_IMAGELAYER_ORIGIN_PADDING: u8 = 1;
pub const NS_STYLE_IMAGELAYER_ORIGIN_CONTENT: u8 = 2;

pub const NS_STYLE_IMAGELAYER_ATTACHMENT_SCROLL: u8 = 0;
pub const NS_STYLE_IMAGELAYER_ATTACHMENT_FIXED: u8 = 1;
pub const NS_STYLE_IMAGELAYER_ATTACHMENT_LOCAL: u8 = 2;

pub const NS_STYLE_GRADIENT_SHAPE_LINEAR: u8 = 0;
pub const NS_STYLE_GRADIENT_SIZE_FARTHEST_CORNER: u8 = 3;

pub const NS_STYLE_CURSOR_AUTO: u8 = 1;
pub const NS_STYLE_CURSOR_CROSSHAIR: u8 = 2;
pub const NS_STYLE_CURSOR_DEFAULT: u8 = 3;
pub const NS_STYLE_CURSOR_POINTER: u8 = 4;
pub const NS_STYLE_CURSOR_MOVE: u8 = 5;
pub const NS_STYLE_CURSOR_E_RESIZE: u8 = 6;
pub const NS_STYLE_CURSOR_NE_RESIZE: u8 = 7;
pub const NS_STYLE_CURSOR_NW_RESIZE: u8 = 8;
pub const NS_STYLE_CURSOR_N_RESIZE: u8 = 9;
pub const NS_STYLE_CURSOR_SE_RESIZE: u8 = 10;
pub const NS_STYLE_CURSOR_SW_RESIZE: u8 = 11;
pub const NS_STYLE_CURSOR_S_RESIZE: u8 = 12;
pub const NS_STYLE_CURSOR_W_RESIZE: u8 = 13;
pub const NS_STYLE_CURSOR_TEXT: u8 = 14;
pub const NS_STYLE_CURSOR_WAIT: u8 = 15;
pub const NS_STYLE_CURSOR_HELP: u8 = 16;
pub const NS_STYLE_CURSOR_COPY: u8 = 17;
pub const NS_STYLE_CURSOR_ALIAS: u8 = 18;
pub const NS_STYLE_CURSOR_CONTEXT_MENU: u8 = 19;
pub const NS_STYLE_CURSOR_CELL: u8 = 20;
pub const NS_STYLE_CURSOR_GRAB: u8 = 21;
pub const NS_STYLE_CURSOR_GRABBING: u8 = 22;
pub const NS_STYLE_CURSOR_SPINNING: u8 = 23;
pub const NS_STYLE_CURSOR_ZOOM_IN: u8 = 24;
pub const NS_STYLE_CURSOR_ZOOM_OUT: u8 = 25;
pub const NS_STYLE_CURSOR_NOT_ALLOWED: u8 = 26;
pub const NS_STYLE_CURSOR_COL_RESIZE: u8 = 27;
pub const NS_STYLE_CURSOR_ROW_RESIZE: u8 = 28;
pub const NS_STYLE_CURSOR_NO_DROP: u8 = 29;
pub const NS_STYLE_CURSOR_VERTICAL_TEXT: u8 = 30;
pub const NS_STYLE_CURSOR_ALL_SCROLL: u8 = 31;
pub const NS_STYLE_CURSOR_NESW_RESIZE: u8 = 32;
pub const NS_STYLE_CURSOR_NWSE_RESIZE: u8 = 33;
pub const NS_STYLE_CURSOR_NS_RESIZE: u8 = 34;
pub const NS_STYLE_CURSOR_EW_RESIZE: u8 = 35;
pub const NS_STYLE_CURSOR_NONE: u8 = 36;

/// Index of each box side in Gecko's side arrays.
pub const SIDE_TOP: usize = 0;
pub const SIDE_RIGHT: usize = 1;
pub const SIDE_BOTTOM: usize = 2;
pub const SIDE_LEFT: usize = 3;

/// Index of the horizontal and vertical radius of each corner in Gecko's
/// corner arrays.
pub const NS_CORNER_TOP_LEFT_X: usize = 0;
pub const NS_CORNER_TOP_LEFT_Y: usize = 1;
pub const NS_CORNER_TOP_RIGHT_X: usize = 2;
pub const NS_CORNER_TOP_RIGHT_Y: usize = 3;
pub const NS_CORNER_BOTTOM_RIGHT_X: usize = 4;
pub const NS_CORNER_BOTTOM_RIGHT_Y: usize = 5;
pub const NS_CORNER_BOTTOM_LEFT_X: usize = 6;
pub const NS_CORNER_BOTTOM_LEFT_Y: usize = 7;

/// App units per device pixel at a device pixel ratio of one.
pub const AU_PER_DEVICE_PX_DEFAULT: i32 = 60;

} // verus!
