//! Keyword properties and the Gecko constants that stand for each keyword.
use vstd::prelude::*;
use crate::consts;

verus! {

/// A `border-style` / `outline-style` keyword.
#[derive(Clone, Copy, Debug, PartialEq, Eq, Structural)]
pub enum BorderStyle {
    None_,
    Solid,
    Double,
    Dotted,
    Dashed,
    Hidden,
    Groove,
    Ridge,
    Inset,
    Outset,
}

/// The Gecko constant stored for each `BorderStyle` keyword.
pub open spec fn spec_border_style_to_gecko(k: BorderStyle) -> u8 {
    match k {
        BorderStyle::None_ => consts::NS_STYLE_BORDER_STYLE_NONE,
        BorderStyle::Solid => consts::NS_STYLE_BORDER_STYLE_SOLID,
        BorderStyle::Double => consts::NS_STYLE_BORDER_STYLE_DOUBLE,
        BorderStyle::Dotted => consts::NS_STYLE_BORDER_STYLE_DOTTED,
        BorderStyle::Dashed => consts::NS_STYLE_BORDER_STYLE_DASHED,
        BorderStyle::Hidden => consts::NS_STYLE_BORDER_STYLE_HIDDEN,
        BorderStyle::Groove => consts::NS_STYLE_BORDER_STYLE_GROOVE,
        BorderStyle::Ridge => consts::NS_STYLE_BORDER_STYLE_RIDGE,
        BorderStyle::Inset => consts::NS_STYLE_BORDER_STYLE_INSET,
        BorderStyle::Outset => consts::NS_STYLE_BORDER_STYLE_OUTSET,
    }
}

/// The keyword that a stored Gecko constant stands for, if any.
pub open spec fn spec_border_style_from_gecko(n: u8) -> Option<BorderStyle> {
    if n == consts::NS_STYLE_BORDER_STYLE_NONE {
        Some(BorderStyle::None_)
    } else if n == consts::NS_STYLE_BORDER_STYLE_SOLID {
        Some(BorderStyle::Solid)
    } else if n == consts::NS_STYLE_BORDER_STYLE_DOUBLE {
        Some(BorderStyle::Double)
    } else if n == consts::NS_STYLE_BORDER_STYLE_DOTTED {
        Some(BorderStyle::Dotted)
    } else if n == consts::NS_STYLE_BORDER_STYLE_DASHED {
        Some(BorderStyle::Dashed)
    } else if n == consts::NS_STYLE_BORDER_STYLE_HIDDEN {
        Some(BorderStyle::Hidden)
    } else if n == consts::NS_STYLE_BORDER_STYLE_GROOVE {
        Some(BorderStyle::Groove)
    } else if n == consts::NS_STYLE_BORDER_STYLE_RIDGE {
        Some(BorderStyle::Ridge)
    } else if n == consts::NS_STYLE_BORDER_STYLE_INSET {
        Some(BorderStyle::Inset)
    } else if n == consts::NS_STYLE_BORDER_STYLE_OUTSET {
        Some(BorderStyle::Outset)
    } else {
        None
    }
}

impl BorderStyle {
    /// The Gecko constant for this keyword.
    pub fn to_gecko(self) -> (r: u8)
        ensures
            r == spec_border_style_to_gecko(self),
    {
        match self {
            BorderStyle::None_ => consts::NS_STYLE_BORDER_STYLE_NONE,
            BorderStyle::Solid => consts::NS_STYLE_BORDER_STYLE_SOLID,
            BorderStyle::Double => consts::NS_STYLE_BORDER_STYLE_DOUBLE,
            BorderStyle::Dotted => consts::NS_STYLE_BORDER_STYLE_DOTTED,
            BorderStyle::Dashed => consts::NS_STYLE_BORDER_STYLE_DASHED,
            BorderStyle::Hidden => consts::NS_STYLE_BORDER_STYLE_HIDDEN,
            BorderStyle::Groove => consts::NS_STYLE_BORDER_STYLE_GROOVE,
            BorderStyle::Ridge => consts::NS_STYLE_BORDER_STYLE_RIDGE,
            BorderStyle::Inset => consts::NS_STYLE_BORDER_STYLE_INSET,
            BorderStyle::Outset => consts::NS_STYLE_BORDER_STYLE_OUTSET,
        }
    }

    /// The keyword for a stored Gecko constant, if it stands for one.
    pub fn from_gecko(n: u8) -> (r: Option<BorderStyle>)
        ensures
            r == spec_border_style_from_gecko(n),
    {
        if n == consts::NS_STYLE_BORDER_STYLE_NONE {
            Some(BorderStyle::None_)
        } else if n == consts::NS_STYLE_BORDER_STYLE_SOLID {
            Some(BorderStyle::Solid)
        } else if n == consts::NS_STYLE_BORDER_STYLE_DOUBLE {
            Some(BorderStyle::Double)
        } else if n == consts::NS_STYLE_BORDER_STYLE_DOTTED {
            Some(BorderStyle::Dotted)
        } else if n == consts::NS_STYLE_BORDER_STYLE_DASHED {
            Some(BorderStyle::Dashed)
        } else if n == consts::NS_STYLE_BORDER_STYLE_HIDDEN {
            Some(BorderStyle::Hidden)
        } else if n == consts::NS_STYLE_BORDER_STYLE_GROOVE {
            Some(BorderStyle::Groove)
        } else if n == consts::NS_STYLE_BORDER_STYLE_RIDGE {
            Some(BorderStyle::Ridge)
        } else if n == consts::NS_STYLE_BORDER_STYLE_INSET {
            Some(BorderStyle::Inset)
        } else if n == consts::NS_STYLE_BORDER_STYLE_OUTSET {
            Some(BorderStyle::Outset)
        } else {
            None
        }
    }
}

/// Each `BorderStyle` keyword is stored as the Gecko constant of the same name,
/// and each of those constants reads back as the keyword of its name.
pub proof fn lemma_border_style_table()
    ensures
        spec_border_style_to_gecko(BorderStyle::None_) == consts::NS_STYLE_BORDER_STYLE_NONE,
        spec_border_style_to_gecko(BorderStyle::Solid) == consts::NS_STYLE_BORDER_STYLE_SOLID,
        spec_border_style_to_gecko(BorderStyle::Double) == consts::NS_STYLE_BORDER_STYLE_DOUBLE,
        spec_border_style_to_gecko(BorderStyle::Dotted) == consts::NS_STYLE_BORDER_STYLE_DOTTED,
        spec_border_style_to_gecko(BorderStyle::Dashed) == consts::NS_STYLE_BORDER_STYLE_DASHED,
        spec_border_style_to_gecko(BorderStyle::Hidden) == consts::NS_STYLE_BORDER_STYLE_HIDDEN,
        spec_border_style_to_gecko(BorderStyle::Groove) == consts::NS_STYLE_BORDER_STYLE_GROOVE,
        spec_border_style_to_gecko(BorderStyle::Ridge) == consts::NS_STYLE_BORDER_STYLE_RIDGE,
        spec_border_style_to_gecko(BorderStyle::Inset) == consts::NS_STYLE_BORDER_STYLE_INSET,
        spec_border_style_to_gecko(BorderStyle::Outset) == consts::NS_STYLE_BORDER_STYLE_OUTSET,
        spec_border_style_from_gecko(consts::NS_STYLE_BORDER_STYLE_NONE) == Some(BorderStyle::None_),
        spec_border_style_from_gecko(consts::NS_STYLE_BORDER_STYLE_SOLID) == Some(BorderStyle::Solid),
        spec_border_style_from_gecko(consts::NS_STYLE_BORDER_STYLE_DOUBLE) == Some(BorderStyle::Double),
        spec_border_style_from_gecko(consts::NS_STYLE_BORDER_STYLE_DOTTED) == Some(BorderStyle::Dotted),
        spec_border_style_from_gecko(consts::NS_STYLE_BORDER_STYLE_DASHED) == Some(BorderStyle::Dashed),
        spec_border_style_from_gecko(consts::NS_STYLE_BORDER_STYLE_HIDDEN) == Some(BorderStyle::Hidden),
        spec_border_style_from_gecko(consts::NS_STYLE_BORDER_STYLE_GROOVE) == Some(BorderStyle::Groove),
        spec_border_style_from_gecko(consts::NS_STYLE_BORDER_STYLE_RIDGE) == Some(BorderStyle::Ridge),
        spec_border_style_from_gecko(consts::NS_STYLE_BORDER_STYLE_INSET) == Some(BorderStyle::Inset),
        spec_border_style_from_gecko(consts::NS_STYLE_BORDER_STYLE_OUTSET) == Some(BorderStyle::Outset),
{
}

/// Each `BorderStyle` keyword is read back from the constant stored for it, and a
/// constant that reads as a keyword is the one stored for that keyword.
pub proof fn lemma_border_style_roundtrip(k: BorderStyle, n: u8)
    ensures
        spec_border_style_from_gecko(spec_border_style_to_gecko(k)) == Some(k),
        spec_border_style_from_gecko(n) == Some(k) ==> spec_border_style_to_gecko(k) == n,
{
}

/// A `text-decoration-style` keyword.
#[derive(Clone, Copy, Debug, PartialEq, Eq, Structural)]
pub enum TextDecorationStyle {
    Solid,
    Double,
    Dotted,
    Dashed,
    Wavy,
    MozNone,
}

/// The Gecko constant stored for each `TextDecorationStyle` keyword.
pub open spec fn spec_text_decoration_style_to_gecko(k: TextDecorationStyle) -> u8 {
    match k {
        TextDecorationStyle::Solid => consts::NS_STYLE_TEXT_DECORATION_STYLE_SOLID,
        TextDecorationStyle::Double => consts::NS_STYLE_TEXT_DECORATION_STYLE_DOUBLE,
        TextDecorationStyle::Dotted => consts::NS_STYLE_TEXT_DECORATION_STYLE_DOTTED,
        TextDecorationStyle::Dashed => consts::NS_STYLE_TEXT_DECORATION_STYLE_DASHED,
        TextDecorationStyle::Wavy => consts::NS_STYLE_TEXT_DECORATION_STYLE_WAVY,
        TextDecorationStyle::MozNone => consts::NS_STYLE_TEXT_DECORATION_STYLE_NONE,
    }
}

/// The keyword that a stored Gecko constant stands for, if any.
pub open spec fn spec_text_decoration_style_from_gecko(n: u8) -> Option<TextDecorationStyle> {
    if n == consts::NS_STYLE_TEXT_DECORATION_STYLE_SOLID {
        Some(TextDecorationStyle::Solid)
    } else if n == consts::NS_STYLE_TEXT_DECORATION_STYLE_DOUBLE {
        Some(TextDecorationStyle::Double)
    } else if n == consts::NS_STYLE_TEXT_DECORATION_STYLE_DOTTED {
        Some(TextDecorationStyle::Dotted)
    } else if n == consts::NS_STYLE_TEXT_DECORATION_STYLE_DASHED {
        Some(TextDecorationStyle::Dashed)
    } else if n == consts::NS_STYLE_TEXT_DECORATION_STYLE_WAVY {
        Some(TextDecorationStyle::Wavy)
    } else if n == consts::NS_STYLE_TEXT_DECORATION_STYLE_NONE {
        Some(TextDecorationStyle::MozNone)
    } else {
        None
    }
}

impl TextDecorationStyle {
    /// The Gecko constant for this keyword.
    pub fn to_gecko(self) -> (r: u8)
        ensures
            r == spec_text_decoration_style_to_gecko(self),
    {
        match self {
            TextDecorationStyle::Solid => consts::NS_STYLE_TEXT_DECORATION_STYLE_SOLID,
            TextDecorationStyle::Double => consts::NS_STYLE_TEXT_DECORATION_STYLE_DOUBLE,
            TextDecorationStyle::Dotted => consts::NS_STYLE_TEXT_DECORATION_STYLE_DOTTED,
            TextDecorationStyle::Dashed => consts::NS_STYLE_TEXT_DECORATION_STYLE_DASHED,
            TextDecorationStyle::Wavy => consts::NS_STYLE_TEXT_DECORATION_STYLE_WAVY,
            TextDecorationStyle::MozNone => consts::NS_STYLE_TEXT_DECORATION_STYLE_NONE,
        }
    }

    /// The keyword for a stored Gecko constant, if it stands for one.
    pub fn from_gecko(n: u8) -> (r: Option<TextDecorationStyle>)
        ensures
            r == spec_text_decoration_style_from_gecko(n),
    {
        if n == consts::NS_STYLE_TEXT_DECORATION_STYLE_SOLID {
            Some(TextDecorationStyle::Solid)
        } else if n == consts::NS_STYLE_TEXT_DECORATION_STYLE_DOUBLE {
            Some(TextDecorationStyle::Double)
        } else if n == consts::NS_STYLE_TEXT_DECORATION_STYLE_DOTTED {
            Some(TextDecorationStyle::Dotted)
        } else if n == consts::NS_STYLE_TEXT_DECORATION_STYLE_DASHED {
            Some(TextDecorationStyle::Dashed)
        } else if n == consts::NS_STYLE_TEXT_DECORATION_STYLE_WAVY {
            Some(TextDecorationStyle::Wavy)
        } else if n == consts::NS_STYLE_TEXT_DECORATION_STYLE_NONE {
            Some(TextDecorationStyle::MozNone)
        } else {
            None
        }
    }
}

/// Each `TextDecorationStyle` keyword is stored as the Gecko constant of the same name,
/// and each of those constants reads back as the keyword of its name.
pub proof fn lemma_text_decoration_style_table()
    ensures
        spec_text_decoration_style_to_gecko(TextDecorationStyle::Solid) == consts::NS_STYLE_TEXT_DECORATION_STYLE_SOLID,
        spec_text_decoration_style_to_gecko(TextDecorationStyle::Double) == consts::NS_STYLE_TEXT_DECORATION_STYLE_DOUBLE,
        spec_text_decoration_style_to_gecko(TextDecorationStyle::Dotted) == consts::NS_STYLE_TEXT_DECORATION_STYLE_DOTTED,
        spec_text_decoration_style_to_gecko(TextDecorationStyle::Dashed) == consts::NS_STYLE_TEXT_DECORATION_STYLE_DASHED,
        spec_text_decoration_style_to_gecko(TextDecorationStyle::Wavy) == consts::NS_STYLE_TEXT_DECORATION_STYLE_WAVY,
        spec_text_decoration_style_to_gecko(TextDecorationStyle::MozNone) == consts::NS_STYLE_TEXT_DECORATION_STYLE_NONE,
        spec_text_decoration_style_from_gecko(consts::NS_STYLE_TEXT_DECORATION_STYLE_SOLID) == Some(TextDecorationStyle::Solid),
        spec_text_decoration_style_from_gecko(consts::NS_STYLE_TEXT_DECORATION_STYLE_DOUBLE) == Some(TextDecorationStyle::Double),
        spec_text_decoration_style_from_gecko(consts::NS_STYLE_TEXT_DECORATION_STYLE_DOTTED) == Some(TextDecorationStyle::Dotted),
        spec_text_decoration_style_from_gecko(consts::NS_STYLE_TEXT_DECORATION_STYLE_DASHED) == Some(TextDecorationStyle::Dashed),
        spec_text_decoration_style_from_gecko(consts::NS_STYLE_TEXT_DECORATION_STYLE_WAVY) == Some(TextDecorationStyle::Wavy),
        spec_text_decoration_style_from_gecko(consts::NS_STYLE_TEXT_DECORATION_STYLE_NONE) == Some(TextDecorationStyle::MozNone),
{
}

/// Each `TextDecorationStyle` keyword is read back from the constant stored for it, and a
/// constant that reads as a keyword is the one stored for that keyword.
pub proof fn lemma_text_decoration_style_roundtrip(k: TextDecorationStyle, n: u8)
    ensures
        spec_text_decoration_style_from_gecko(spec_text_decoration_style_to_gecko(k)) == Some(k),
        spec_text_decoration_style_from_gecko(n) == Some(k) ==> spec_text_decoration_style_to_gecko(k) == n,
{
}

/// A `font-style` keyword.
#[derive(Clone, Copy, Debug, PartialEq, Eq, Structural)]
pub enum FontStyle {
    Normal,
    Italic,
    Oblique,
}

/// The Gecko constant stored for each `FontStyle` keyword.
pub open spec fn spec_font_style_to_gecko(k: FontStyle) -> u8 {
    match k {
        FontStyle::Normal => consts::NS_FONT_STYLE_NORMAL,
        FontStyle::Italic => consts::NS_FONT_STYLE_ITALIC,
        FontStyle::Oblique => consts::NS_FONT_STYLE_OBLIQUE,
    }
}

/// The keyword that a stored Gecko constant stands for, if any.
pub open spec fn spec_font_style_from_gecko(n: u8) -> Option<FontStyle> {
    if n == consts::NS_FONT_STYLE_NORMAL {
        Some(FontStyle::Normal)
    } else if n == consts::NS_FONT_STYLE_ITALIC {
        Some(FontStyle::Italic)
    } else if n == consts::NS_FONT_STYLE_OBLIQUE {
        Some(FontStyle::Oblique)
    } else {
        None
    }
}

impl FontStyle {
    /// The Gecko constant for this keyword.
    pub fn to_gecko(self) -> (r: u8)
        ensures
            r == spec_font_style_to_gecko(self),
    {
        match self {
            FontStyle::Normal => consts::NS_FONT_STYLE_NORMAL,
            FontStyle::Italic => consts::NS_FONT_STYLE_ITALIC,
            FontStyle::Oblique => consts::NS_FONT_STYLE_OBLIQUE,
        }
    }

    /// The keyword for a stored Gecko constant, if it stands for one.
    pub fn from_gecko(n: u8) -> (r: Option<FontStyle>)
        ensures
            r == spec_font_style_from_gecko(n),
    {
        if n == consts::NS_FONT_STYLE_NORMAL {
            Some(FontStyle::Normal)
        } else if n == consts::NS_FONT_STYLE_ITALIC {
            Some(FontStyle::Italic)
        } else if n == consts::NS_FONT_STYLE_OBLIQUE {
            Some(FontStyle::Oblique)
        } else {
            None
        }
    }
}

/// Each `FontStyle` keyword is stored as the Gecko constant of the same name,
/// and each of those constants reads back as the keyword of its name.
pub proof fn lemma_font_style_table()
    ensures
        spec_font_style_to_gecko(FontStyle::Normal) == consts::NS_FONT_STYLE_NORMAL,
        spec_font_style_to_gecko(FontStyle::Italic) == consts::NS_FONT_STYLE_ITALIC,
        spec_font_style_to_gecko(FontStyle::Oblique) == consts::NS_FONT_STYLE_OBLIQUE,
        spec_font_style_from_gecko(consts::NS_FONT_STYLE_NORMAL) == Some(FontStyle::Normal),
        spec_font_style_from_gecko(consts::NS_FONT_STYLE_ITALIC) == Some(FontStyle::Italic),
        spec_font_style_from_gecko(consts::NS_FONT_STYLE_OBLIQUE) == Some(FontStyle::Oblique),
{
}

/// Each `FontStyle` keyword is read back from the constant stored for it, and a
/// constant that reads as a keyword is the one stored for that keyword.
pub proof fn lemma_font_style_roundtrip(k: FontStyle, n: u8)
    ensures
        spec_font_style_from_gecko(spec_font_style_to_gecko(k)) == Some(k),
        spec_font_style_from_gecko(n) == Some(k) ==> spec_font_style_to_gecko(k) == n,
{
}

/// A `display` keyword.
#[derive(Clone, Copy, Debug, PartialEq, Eq, Structural)]
pub enum Display {
    Inline,
    Block,
    InlineBlock,
    Table,
    InlineTable,
    TableRowGroup,
    TableHeaderGroup,
    TableFooterGroup,
    TableRow,
    TableColumnGroup,
    TableColumn,
    TableCell,
    TableCaption,
    ListItem,
    Flex,
    None_,
    MozBox,
    MozInlineBox,
}

/// The Gecko constant stored for each `Display` keyword.
pub open spec fn spec_display_to_gecko(k: Display) -> u8 {
    match k {
        Display::Inline => consts::NS_STYLE_DISPLAY_INLINE,
        Display::Block => consts::NS_STYLE_DISPLAY_BLOCK,
        Display::InlineBlock => consts::NS_STYLE_DISPLAY_INLINE_BLOCK,
        Display::Table => consts::NS_STYLE_DISPLAY_TABLE,
        Display::InlineTable => consts::NS_STYLE_DISPLAY_INLINE_TABLE,
        Display::TableRowGroup => consts::NS_STYLE_DISPLAY_TABLE_ROW_GROUP,
        Display::TableHeaderGroup => consts::NS_STYLE_DISPLAY_TABLE_HEADER_GROUP,
        Display::TableFooterGroup => consts::NS_STYLE_DISPLAY_TABLE_FOOTER_GROUP,
        Display::TableRow => consts::NS_STYLE_DISPLAY_TABLE_ROW,
        Display::TableColumnGroup => consts::NS_STYLE_DISPLAY_TABLE_COLUMN_GROUP,
        Display::TableColumn => consts::NS_STYLE_DISPLAY_TABLE_COLUMN,
        Display::TableCell => consts::NS_STYLE_DISPLAY_TABLE_CELL,
        Display::TableCaption => consts::NS_STYLE_DISPLAY_TABLE_CAPTION,
        Display::ListItem => consts::NS_STYLE_DISPLAY_LIST_ITEM,
        Display::Flex => consts::NS_STYLE_DISPLAY_FLEX,
        Display::None_ => consts::NS_STYLE_DISPLAY_NONE,
        Display::MozBox => consts::NS_STYLE_DISPLAY_BOX,
        Display::MozInlineBox => consts::NS_STYLE_DISPLAY_INLINE_BOX,
    }
}

/// The keyword that a stored Gecko constant stands for, if any.
pub open spec fn spec_display_from_gecko(n: u8) -> Option<Display> {
    if n == consts::NS_STYLE_DISPLAY_INLINE {
        Some(Display::Inline)
    } else if n == consts::NS_STYLE_DISPLAY_BLOCK {
        Some(Display::Block)
    } else if n == consts::NS_STYLE_DISPLAY_INLINE_BLOCK {
        Some(Display::InlineBlock)
    } else if n == consts::NS_STYLE_DISPLAY_TABLE {
        Some(Display::Table)
    } else if n == consts::NS_STYLE_DISPLAY_INLINE_TABLE {
        Some(Display::InlineTable)
    } else if n == consts::NS_STYLE_DISPLAY_TABLE_ROW_GROUP {
        Some(Display::TableRowGroup)
    } else if n == consts::NS_STYLE_DISPLAY_TABLE_HEADER_GROUP {
        Some(Display::TableHeaderGroup)
    } else if n == consts::NS_STYLE_DISPLAY_TABLE_FOOTER_GROUP {
        Some(Display::TableFooterGroup)
    } else if n == consts::NS_STYLE_DISPLAY_TABLE_ROW {
        Some(Display::TableRow)
    } else if n == consts::NS_STYLE_DISPLAY_TABLE_COLUMN_GROUP {
        Some(Display::TableColumnGroup)
    } else if n == consts::NS_STYLE_DISPLAY_TABLE_COLUMN {
        Some(Display::TableColumn)
    } else if n == consts::NS_STYLE_DISPLAY_TABLE_CELL {
        Some(Display::TableCell)
    } else if n == consts::NS_STYLE_DISPLAY_TABLE_CAPTION {
        Some(Display::TableCaption)
    } else if n == consts::NS_STYLE_DISPLAY_LIST_ITEM {
        Some(Display::ListItem)
    } else if n == consts::NS_STYLE_DISPLAY_FLEX {
        Some(Display::Flex)
    } else if n == consts::NS_STYLE_DISPLAY_NONE {
        Some(Display::None_)
    } else if n == consts::NS_STYLE_DISPLAY_BOX {
        Some(Display::MozBox)
    } else if n == consts::NS_STYLE_DISPLAY_INLINE_BOX {
        Some(Display::MozInlineBox)
    } else {
        None
    }
}

impl Display {
    /// The Gecko constant for this keyword.
    pub fn to_gecko(self) -> (r: u8)
        ensures
            r == spec_display_to_gecko(self),
    {
        match self {
            Display::Inline => consts::NS_STYLE_DISPLAY_INLINE,
            Display::Block => consts::NS_STYLE_DISPLAY_BLOCK,
            Display::InlineBlock => consts::NS_STYLE_DISPLAY_INLINE_BLOCK,
            Display::Table => consts::NS_STYLE_DISPLAY_TABLE,
            Display::InlineTable => consts::NS_STYLE_DISPLAY_INLINE_TABLE,
            Display::TableRowGroup => consts::NS_STYLE_DISPLAY_TABLE_ROW_GROUP,
            Display::TableHeaderGroup => consts::NS_STYLE_DISPLAY_TABLE_HEADER_GROUP,
            Display::TableFooterGroup => consts::NS_STYLE_DISPLAY_TABLE_FOOTER_GROUP,
            Display::TableRow => consts::NS_STYLE_DISPLAY_TABLE_ROW,
            Display::TableColumnGroup => consts::NS_STYLE_DISPLAY_TABLE_COLUMN_GROUP,
            Display::TableColumn => consts::NS_STYLE_DISPLAY_TABLE_COLUMN,
            Display::TableCell => consts::NS_STYLE_DISPLAY_TABLE_CELL,
            Display::TableCaption => consts::NS_STYLE_DISPLAY_TABLE_CAPTION,
            Display::ListItem => consts::NS_STYLE_DISPLAY_LIST_ITEM,
            Display::Flex => consts::NS_STYLE_DISPLAY_FLEX,
            Display::None_ => consts::NS_STYLE_DISPLAY_NONE,
            Display::MozBox => consts::NS_STYLE_DISPLAY_BOX,
            Display::MozInlineBox => consts::NS_STYLE_DISPLAY_INLINE_BOX,
        }
    }

    /// The keyword for a stored Gecko constant, if it stands for one.
    pub fn from_gecko(n: u8) -> (r: Option<Display>)
        ensures
            r == spec_display_from_gecko(n),
    {
        if n == consts::NS_STYLE_DISPLAY_INLINE {
            Some(Display::Inline)
        } else if n == consts::NS_STYLE_DISPLAY_BLOCK {
            Some(Display::Block)
        } else if n == consts::NS_STYLE_DISPLAY_INLINE_BLOCK {
            Some(Display::InlineBlock)
        } else if n == consts::NS_STYLE_DISPLAY_TABLE {
            Some(Display::Table)
        } else if n == consts::NS_STYLE_DISPLAY_INLINE_TABLE {
            Some(Display::InlineTable)
        } else if n == consts::NS_STYLE_DISPLAY_TABLE_ROW_GROUP {
            Some(Display::TableRowGroup)
        } else if n == consts::NS_STYLE_DISPLAY_TABLE_HEADER_GROUP {
            Some(Display::TableHeaderGroup)
        } else if n == consts::NS_STYLE_DISPLAY_TABLE_FOOTER_GROUP {
            Some(Display::TableFooterGroup)
        } else if n == consts::NS_STYLE_DISPLAY_TABLE_ROW {
            Some(Display::TableRow)
        } else if n == consts::NS_STYLE_DISPLAY_TABLE_COLUMN_GROUP {
            Some(Display::TableColumnGroup)
        } else if n == consts::NS_STYLE_DISPLAY_TABLE_COLUMN {
            Some(Display::TableColumn)
        } else if n == consts::NS_STYLE_DISPLAY_TABLE_CELL {
            Some(Display::TableCell)
        } else if n == consts::NS_STYLE_DISPLAY_TABLE_CAPTION {
            Some(Display::TableCaption)
        } else if n == consts::NS_STYLE_DISPLAY_LIST_ITEM {
            Some(Display::ListItem)
        } else if n == consts::NS_STYLE_DISPLAY_FLEX {
            Some(Display::Flex)
        } else if n == consts::NS_STYLE_DISPLAY_NONE {
            Some(Display::None_)
        } else if n == consts::NS_STYLE_DISPLAY_BOX {
            Some(Display::MozBox)
        } else if n == consts::NS_STYLE_DISPLAY_INLINE_BOX {
            Some(Display::MozInlineBox)
        } else {
            None
        }
    }
}

/// Each `Display` keyword is stored as the Gecko constant of the same name,
/// and each of those constants reads back as the keyword of its name.
pub proof fn lemma_display_table()
    ensures
        spec_display_to_gecko(Display::Inline) == consts::NS_STYLE_DISPLAY_INLINE,
        spec_display_to_gecko(Display::Block) == consts::NS_STYLE_DISPLAY_BLOCK,
        spec_display_to_gecko(Display::InlineBlock) == consts::NS_STYLE_DISPLAY_INLINE_BLOCK,
        spec_display_to_gecko(Display::Table) == consts::NS_STYLE_DISPLAY_TABLE,
        spec_display_to_gecko(Display::InlineTable) == consts::NS_STYLE_DISPLAY_INLINE_TABLE,
        spec_display_to_gecko(Display::TableRowGroup) == consts::NS_STYLE_DISPLAY_TABLE_ROW_GROUP,
        spec_display_to_gecko(Display::TableHeaderGroup) == consts::NS_STYLE_DISPLAY_TABLE_HEADER_GROUP,
        spec_display_to_gecko(Display::TableFooterGroup) == consts::NS_STYLE_DISPLAY_TABLE_FOOTER_GROUP,
        spec_display_to_gecko(Display::TableRow) == consts::NS_STYLE_DISPLAY_TABLE_ROW,
        spec_display_to_gecko(Display::TableColumnGroup) == consts::NS_STYLE_DISPLAY_TABLE_COLUMN_GROUP,
        spec_display_to_gecko(Display::TableColumn) == consts::NS_STYLE_DISPLAY_TABLE_COLUMN,
        spec_display_to_gecko(Display::TableCell) == consts::NS_STYLE_DISPLAY_TABLE_CELL,
        spec_display_to_gecko(Display::TableCaption) == consts::NS_STYLE_DISPLAY_TABLE_CAPTION,
        spec_display_to_gecko(Display::ListItem) == consts::NS_STYLE_DISPLAY_LIST_ITEM,
        spec_display_to_gecko(Display::Flex) == consts::NS_STYLE_DISPLAY_FLEX,
        spec_display_to_gecko(Display::None_) == consts::NS_STYLE_DISPLAY_NONE,
        spec_display_to_gecko(Display::MozBox) == consts::NS_STYLE_DISPLAY_BOX,
        spec_display_to_gecko(Display::MozInlineBox) == consts::NS_STYLE_DISPLAY_INLINE_BOX,
        spec_display_from_gecko(consts::NS_STYLE_DISPLAY_INLINE) == Some(Display::Inline),
        spec_display_from_gecko(consts::NS_STYLE_DISPLAY_BLOCK) == Some(Display::Block),
        spec_display_from_gecko(consts::NS_STYLE_DISPLAY_INLINE_BLOCK) == Some(Display::InlineBlock),
        spec_display_from_gecko(consts::NS_STYLE_DISPLAY_TABLE) == Some(Display::Table),
        spec_display_from_gecko(consts::NS_STYLE_DISPLAY_INLINE_TABLE) == Some(Display::InlineTable),
        spec_display_from_gecko(consts::NS_STYLE_DISPLAY_TABLE_ROW_GROUP) == Some(Display::TableRowGroup),
        spec_display_from_gecko(consts::NS_STYLE_DISPLAY_TABLE_HEADER_GROUP) == Some(Display::TableHeaderGroup),
        spec_display_from_gecko(consts::NS_STYLE_DISPLAY_TABLE_FOOTER_GROUP) == Some(Display::TableFooterGroup),
        spec_display_from_gecko(consts::NS_STYLE_DISPLAY_TABLE_ROW) == Some(Display::TableRow),
        spec_display_from_gecko(consts::NS_STYLE_DISPLAY_TABLE_COLUMN_GROUP) == Some(Display::TableColumnGroup),
        spec_display_from_gecko(consts::NS_STYLE_DISPLAY_TABLE_COLUMN) == Some(Display::TableColumn),
        spec_display_from_gecko(consts::NS_STYLE_DISPLAY_TABLE_CELL) == Some(Display::TableCell),
        spec_display_from_gecko(consts::NS_STYLE_DISPLAY_TABLE_CAPTION) == Some(Display::TableCaption),
        spec_display_from_gecko(consts::NS_STYLE_DISPLAY_LIST_ITEM) == Some(Display::ListItem),
        spec_display_from_gecko(consts::NS_STYLE_DISPLAY_FLEX) == Some(Display::Flex),
        spec_display_from_gecko(consts::NS_STYLE_DISPLAY_NONE) == Some(Display::None_),
        spec_display_from_gecko(consts::NS_STYLE_DISPLAY_BOX) == Some(Display::MozBox),
        spec_display_from_gecko(consts::NS_STYLE_DISPLAY_INLINE_BOX) == Some(Display::MozInlineBox),
{
}

/// Each `Display` keyword is read back from the constant stored for it, and a
/// constant that reads as a keyword is the one stored for that keyword.
pub proof fn lemma_display_roundtrip(k: Display, n: u8)
    ensures
        spec_display_from_gecko(spec_display_to_gecko(k)) == Some(k),
        spec_display_from_gecko(n) == Some(k) ==> spec_display_to_gecko(k) == n,
{
}

/// An `overflow-x` / `overflow-y` keyword.
#[derive(Clone, Copy, Debug, PartialEq, Eq, Structural)]
pub enum Overflow {
    Visible,
    Hidden,
    Scroll,
    Auto,
}

/// The Gecko constant stored for each `Overflow` keyword.
pub open spec fn spec_overflow_to_gecko(k: Overflow) -> u8 {
    match k {
        Overflow::Visible => consts::NS_STYLE_OVERFLOW_VISIBLE,
        Overflow::Hidden => consts::NS_STYLE_OVERFLOW_HIDDEN,
        Overflow::Scroll => consts::NS_STYLE_OVERFLOW_SCROLL,
        Overflow::Auto => consts::NS_STYLE_OVERFLOW_AUTO,
    }
}

/// The keyword that a stored Gecko constant stands for, if any.
pub open spec fn spec_overflow_from_gecko(n: u8) -> Option<Overflow> {
    if n == consts::NS_STYLE_OVERFLOW_VISIBLE {
        Some(Overflow::Visible)
    } else if n == consts::NS_STYLE_OVERFLOW_HIDDEN {
        Some(Overflow::Hidden)
    } else if n == consts::NS_STYLE_OVERFLOW_SCROLL {
        Some(Overflow::Scroll)
    } else if n == consts::NS_STYLE_OVERFLOW_AUTO {
        Some(Overflow::Auto)
    } else {
        None
    }
}

impl Overflow {
    /// The Gecko constant for this keyword.
    pub fn to_gecko(self) -> (r: u8)
        ensures
            r == spec_overflow_to_gecko(self),
    {
        match self {
            Overflow::Visible => consts::NS_STYLE_OVERFLOW_VISIBLE,
            Overflow::Hidden => consts::NS_STYLE_OVERFLOW_HIDDEN,
            Overflow::Scroll => consts::NS_STYLE_OVERFLOW_SCROLL,
            Overflow::Auto => consts::NS_STYLE_OVERFLOW_AUTO,
        }
    }

    /// The keyword for a stored Gecko constant, if it stands for one.
    pub fn from_gecko(n: u8) -> (r: Option<Overflow>)
        ensures
            r == spec_overflow_from_gecko(n),
    {
        if n == consts::NS_STYLE_OVERFLOW_VISIBLE {
            Some(Overflow::Visible)
        } else if n == consts::NS_STYLE_OVERFLOW_HIDDEN {
            Some(Overflow::Hidden)
        } else if n == consts::NS_STYLE_OVERFLOW_SCROLL {
            Some(Overflow::Scroll)
        } else if n == consts::NS_STYLE_OVERFLOW_AUTO {
            Some(Overflow::Auto)
        } else {
            None
        }
    }
}

/// Each `Overflow` keyword is stored as the Gecko constant of the same name,
/// and each of those constants reads back as the keyword of its name.
pub proof fn lemma_overflow_table()
    ensures
        spec_overflow_to_gecko(Overflow::Visible) == consts::NS_STYLE_OVERFLOW_VISIBLE,
        spec_overflow_to_gecko(Overflow::Hidden) == consts::NS_STYLE_OVERFLOW_HIDDEN,
        spec_overflow_to_gecko(Overflow::Scroll) == consts::NS_STYLE_OVERFLOW_SCROLL,
        spec_overflow_to_gecko(Overflow::Auto) == consts::NS_STYLE_OVERFLOW_AUTO,
        spec_overflow_from_gecko(consts::NS_STYLE_OVERFLOW_VISIBLE) == Some(Overflow::Visible),
        spec_overflow_from_gecko(consts::NS_STYLE_OVERFLOW_HIDDEN) == Some(Overflow::Hidden),
        spec_overflow_from_gecko(consts::NS_STYLE_OVERFLOW_SCROLL) == Some(Overflow::Scroll),
        spec_overflow_from_gecko(consts::NS_STYLE_OVERFLOW_AUTO) == Some(Overflow::Auto),
{
}

/// Each `Overflow` keyword is read back from the constant stored for it, and a
/// constant that reads as a keyword is the one stored for that keyword.
pub proof fn lemma_overflow_roundtrip(k: Overflow, n: u8)
    ensures
        spec_overflow_from_gecko(spec_overflow_to_gecko(k)) == Some(k),
        spec_overflow_from_gecko(n) == Some(k) ==> spec_overflow_to_gecko(k) == n,
{
}

/// A keyword value of `vertical-align`.
#[derive(Clone, Copy, Debug, PartialEq, Eq, Structural)]
pub enum VerticalAlignKeyword {
    Baseline,
    Sub,
    Super,
    Top,
    TextTop,
    Middle,
    Bottom,
    TextBottom,
    MozMiddleWithBaseline,
}

/// The Gecko constant stored for each `VerticalAlignKeyword` keyword.
pub open spec fn spec_vertical_align_keyword_to_gecko(k: VerticalAlignKeyword) -> u32 {
    match k {
        VerticalAlignKeyword::Baseline => consts::NS_STYLE_VERTICAL_ALIGN_BASELINE,
        VerticalAlignKeyword::Sub => consts::NS_STYLE_VERTICAL_ALIGN_SUB,
        VerticalAlignKeyword::Super => consts::NS_STYLE_VERTICAL_ALIGN_SUPER,
        VerticalAlignKeyword::Top => consts::NS_STYLE_VERTICAL_ALIGN_TOP,
        VerticalAlignKeyword::TextTop => consts::NS_STYLE_VERTICAL_ALIGN_TEXT_TOP,
        VerticalAlignKeyword::Middle => consts::NS_STYLE_VERTICAL_ALIGN_MIDDLE,
        VerticalAlignKeyword::Bottom => consts::NS_STYLE_VERTICAL_ALIGN_BOTTOM,
        VerticalAlignKeyword::TextBottom => consts::NS_STYLE_VERTICAL_ALIGN_TEXT_BOTTOM,
        VerticalAlignKeyword::MozMiddleWithBaseline => consts::NS_STYLE_VERTICAL_ALIGN_MIDDLE_WITH_BASELINE,
    }
}

/// The keyword that a stored Gecko constant stands for, if any.
pub open spec fn spec_vertical_align_keyword_from_gecko(n: u32) -> Option<VerticalAlignKeyword> {
    if n == consts::NS_STYLE_VERTICAL_ALIGN_BASELINE {
        Some(VerticalAlignKeyword::Baseline)
    } else if n == consts::NS_STYLE_VERTICAL_ALIGN_SUB {
        Some(VerticalAlignKeyword::Sub)
    } else if n == consts::NS_STYLE_VERTICAL_ALIGN_SUPER {
        Some(VerticalAlignKeyword::Super)
    } else if n == consts::NS_STYLE_VERTICAL_ALIGN_TOP {
        Some(VerticalAlignKeyword::Top)
    } else if n == consts::NS_STYLE_VERTICAL_ALIGN_TEXT_TOP {
        Some(VerticalAlignKeyword::TextTop)
    } else if n == consts::NS_STYLE_VERTICAL_ALIGN_MIDDLE {
        Some(VerticalAlignKeyword::Middle)
    } else if n == consts::NS_STYLE_VERTICAL_ALIGN_BOTTOM {
        Some(VerticalAlignKeyword::Bottom)
    } else if n == consts::NS_STYLE_VERTICAL_ALIGN_TEXT_BOTTOM {
        Some(VerticalAlignKeyword::TextBottom)
    } else if n == consts::NS_STYLE_VERTICAL_ALIGN_MIDDLE_WITH_BASELINE {
        Some(VerticalAlignKeyword::MozMiddleWithBaseline)
    } else {
        None
    }
}

impl VerticalAlignKeyword {
    /// The Gecko constant for this keyword.
    pub fn to_gecko(self) -> (r: u32)
        ensures
            r == spec_vertical_align_keyword_to_gecko(self),
    {
        match self {
            VerticalAlignKeyword::Baseline => consts::NS_STYLE_VERTICAL_ALIGN_BASELINE,
            VerticalAlignKeyword::Sub => consts::NS_STYLE_VERTICAL_ALIGN_SUB,
            VerticalAlignKeyword::Super => consts::NS_STYLE_VERTICAL_ALIGN_SUPER,
            VerticalAlignKeyword::Top => consts::NS_STYLE_VERTICAL_ALIGN_TOP,
            VerticalAlignKeyword::TextTop => consts::NS_STYLE_VERTICAL_ALIGN_TEXT_TOP,
            VerticalAlignKeyword::Middle => consts::NS_STYLE_VERTICAL_ALIGN_MIDDLE,
            VerticalAlignKeyword::Bottom => consts::NS_STYLE_VERTICAL_ALIGN_BOTTOM,
            VerticalAlignKeyword::TextBottom => consts::NS_STYLE_VERTICAL_ALIGN_TEXT_BOTTOM,
            VerticalAlignKeyword::MozMiddleWithBaseline => consts::NS_STYLE_VERTICAL_ALIGN_MIDDLE_WITH_BASELINE,
        }
    }

    /// The keyword for a stored Gecko constant, if it stands for one.
    pub fn from_gecko(n: u32) -> (r: Option<VerticalAlignKeyword>)
        ensures
            r == spec_vertical_align_keyword_from_gecko(n),
    {
        if n == consts::NS_STYLE_VERTICAL_ALIGN_BASELINE {
            Some(VerticalAlignKeyword::Baseline)
        } else if n == consts::NS_STYLE_VERTICAL_ALIGN_SUB {
            Some(VerticalAlignKeyword::Sub)
        } else if n == consts::NS_STYLE_VERTICAL_ALIGN_SUPER {
            Some(VerticalAlignKeyword::Super)
        } else if n == consts::NS_STYLE_VERTICAL_ALIGN_TOP {
            Some(VerticalAlignKeyword::Top)
        } else if n == consts::NS_STYLE_VERTICAL_ALIGN_TEXT_TOP {
            Some(VerticalAlignKeyword::TextTop)
        } else if n == consts::NS_STYLE_VERTICAL_ALIGN_MIDDLE {
            Some(VerticalAlignKeyword::Middle)
        } else if n == consts::NS_STYLE_VERTICAL_ALIGN_BOTTOM {
            Some(VerticalAlignKeyword::Bottom)
        } else if n == consts::NS_STYLE_VERTICAL_ALIGN_TEXT_BOTTOM {
            Some(VerticalAlignKeyword::TextBottom)
        } else if n == consts::NS_STYLE_VERTICAL_ALIGN_MIDDLE_WITH_BASELINE {
            Some(VerticalAlignKeyword::MozMiddleWithBaseline)
        } else {
            None
        }
    }
}

/// Each `VerticalAlignKeyword` keyword is stored as the Gecko constant of the same name,
/// and each of those constants reads back as the keyword of its name.
pub proof fn lemma_vertical_align_keyword_table()
    ensures
        spec_vertical_align_keyword_to_gecko(VerticalAlignKeyword::Baseline) == consts::NS_STYLE_VERTICAL_ALIGN_BASELINE,
        spec_vertical_align_keyword_to_gecko(VerticalAlignKeyword::Sub) == consts::NS_STYLE_VERTICAL_ALIGN_SUB,
        spec_vertical_align_keyword_to_gecko(VerticalAlignKeyword::Super) == consts::NS_STYLE_VERTICAL_ALIGN_SUPER,
        spec_vertical_align_keyword_to_gecko(VerticalAlignKeyword::Top) == consts::NS_STYLE_VERTICAL_ALIGN_TOP,
        spec_vertical_align_keyword_to_gecko(VerticalAlignKeyword::TextTop) == consts::NS_STYLE_VERTICAL_ALIGN_TEXT_TOP,
        spec_vertical_align_keyword_to_gecko(VerticalAlignKeyword::Middle) == consts::NS_STYLE_VERTICAL_ALIGN_MIDDLE,
        spec_vertical_align_keyword_to_gecko(VerticalAlignKeyword::Bottom) == consts::NS_STYLE_VERTICAL_ALIGN_BOTTOM,
        spec_vertical_align_keyword_to_gecko(VerticalAlignKeyword::TextBottom) == consts::NS_STYLE_VERTICAL_ALIGN_TEXT_BOTTOM,
        spec_vertical_align_keyword_to_gecko(VerticalAlignKeyword::MozMiddleWithBaseline) == consts::NS_STYLE_VERTICAL_ALIGN_MIDDLE_WITH_BASELINE,
        spec_vertical_align_keyword_from_gecko(consts::NS_STYLE_VERTICAL_ALIGN_BASELINE) == Some(VerticalAlignKeyword::Baseline),
        spec_vertical_align_keyword_from_gecko(consts::NS_STYLE_VERTICAL_ALIGN_SUB) == Some(VerticalAlignKeyword::Sub),
        spec_vertical_align_keyword_from_gecko(consts::NS_STYLE_VERTICAL_ALIGN_SUPER) == Some(VerticalAlignKeyword::Super),
        spec_vertical_align_keyword_from_gecko(consts::NS_STYLE_VERTICAL_ALIGN_TOP) == Some(VerticalAlignKeyword::Top),
        spec_vertical_align_keyword_from_gecko(consts::NS_STYLE_VERTICAL_ALIGN_TEXT_TOP) == Some(VerticalAlignKeyword::TextTop),
        spec_vertical_align_keyword_from_gecko(consts::NS_STYLE_VERTICAL_ALIGN_MIDDLE) == Some(VerticalAlignKeyword::Middle),
        spec_vertical_align_keyword_from_gecko(consts::NS_STYLE_VERTICAL_ALIGN_BOTTOM) == Some(VerticalAlignKeyword::Bottom),
        spec_vertical_align_keyword_from_gecko(consts::NS_STYLE_VERTICAL_ALIGN_TEXT_BOTTOM) == Some(VerticalAlignKeyword::TextBottom),
        spec_vertical_align_keyword_from_gecko(consts::NS_STYLE_VERTICAL_ALIGN_MIDDLE_WITH_BASELINE) == Some(VerticalAlignKeyword::MozMiddleWithBaseline),
{
}

/// Each `VerticalAlignKeyword` keyword is read back from the constant stored for it, and a
/// constant that reads as a keyword is the one stored for that keyword.
pub proof fn lemma_vertical_align_keyword_roundtrip(k: VerticalAlignKeyword, n: u32)
    ensures
        spec_vertical_align_keyword_from_gecko(spec_vertical_align_keyword_to_gecko(k)) == Some(k),
        spec_vertical_align_keyword_from_gecko(n) == Some(k) ==> spec_vertical_align_keyword_to_gecko(k) == n,
{
}

/// A `text-align` keyword.
#[derive(Clone, Copy, Debug, PartialEq, Eq, Structural)]
pub enum TextAlign {
    Start,
    End,
    Left,
    Right,
    Center,
    Justify,
    MozCenter,
    MozLeft,
    MozRight,
    MatchParent,
}

/// The Gecko constant stored for each `TextAlign` keyword.
pub open spec fn spec_text_align_to_gecko(k: TextAlign) -> u8 {
    match k {
        TextAlign::Start => consts::NS_STYLE_TEXT_ALIGN_START,
        TextAlign::End => consts::NS_STYLE_TEXT_ALIGN_END,
        TextAlign::Left => consts::NS_STYLE_TEXT_ALIGN_LEFT,
        TextAlign::Right => consts::NS_STYLE_TEXT_ALIGN_RIGHT,
        TextAlign::Center => consts::NS_STYLE_TEXT_ALIGN_CENTER,
        TextAlign::Justify => consts::NS_STYLE_TEXT_ALIGN_JUSTIFY,
        TextAlign::MozCenter => consts::NS_STYLE_TEXT_ALIGN_MOZ_CENTER,
        TextAlign::MozLeft => consts::NS_STYLE_TEXT_ALIGN_MOZ_LEFT,
        TextAlign::MozRight => consts::NS_STYLE_TEXT_ALIGN_MOZ_RIGHT,
        TextAlign::MatchParent => consts::NS_STYLE_TEXT_ALIGN_MATCH_PARENT,
    }
}

/// The keyword that a stored Gecko constant stands for, if any.
pub open spec fn spec_text_align_from_gecko(n: u8) -> Option<TextAlign> {
    if n == consts::NS_STYLE_TEXT_ALIGN_START {
        Some(TextAlign::Start)
    } else if n == consts::NS_STYLE_TEXT_ALIGN_END {
        Some(TextAlign::End)
    } else if n == consts::NS_STYLE_TEXT_ALIGN_LEFT {
        Some(TextAlign::Left)
    } else if n == consts::NS_STYLE_TEXT_ALIGN_RIGHT {
        Some(TextAlign::Right)
    } else if n == consts::NS_STYLE_TEXT_ALIGN_CENTER {
        Some(TextAlign::Center)
    } else if n == consts::NS_STYLE_TEXT_ALIGN_JUSTIFY {
        Some(TextAlign::Justify)
    } else if n == consts::NS_STYLE_TEXT_ALIGN_MOZ_CENTER {
        Some(TextAlign::MozCenter)
    } else if n == consts::NS_STYLE_TEXT_ALIGN_MOZ_LEFT {
        Some(TextAlign::MozLeft)
    } else if n == consts::NS_STYLE_TEXT_ALIGN_MOZ_RIGHT {
        Some(TextAlign::MozRight)
    } else if n == consts::NS_STYLE_TEXT_ALIGN_MATCH_PARENT {
        Some(TextAlign::MatchParent)
    } else {
        None
    }
}

impl TextAlign {
    /// The Gecko constant for this keyword.
    pub fn to_gecko(self) -> (r: u8)
        ensures
            r == spec_text_align_to_gecko(self),
    {
        match self {
            TextAlign::Start => consts::NS_STYLE_TEXT_ALIGN_START,
            TextAlign::End => consts::NS_STYLE_TEXT_ALIGN_END,
            TextAlign::Left => consts::NS_STYLE_TEXT_ALIGN_LEFT,
            TextAlign::Right => consts::NS_STYLE_TEXT_ALIGN_RIGHT,
            TextAlign::Center => consts::NS_STYLE_TEXT_ALIGN_CENTER,
            TextAlign::Justify => consts::NS_STYLE_TEXT_ALIGN_JUSTIFY,
            TextAlign::MozCenter => consts::NS_STYLE_TEXT_ALIGN_MOZ_CENTER,
            TextAlign::MozLeft => consts::NS_STYLE_TEXT_ALIGN_MOZ_LEFT,
            TextAlign::MozRight => consts::NS_STYLE_TEXT_ALIGN_MOZ_RIGHT,
            TextAlign::MatchParent => consts::NS_STYLE_TEXT_ALIGN_MATCH_PARENT,
        }
    }

    /// The keyword for a stored Gecko constant, if it stands for one.
    pub fn from_gecko(n: u8) -> (r: Option<TextAlign>)
        ensures
            r == spec_text_align_from_gecko(n),
    {
        if n == consts::NS_STYLE_TEXT_ALIGN_START {
            Some(TextAlign::Start)
        } else if n == consts::NS_STYLE_TEXT_ALIGN_END {
            Some(TextAlign::End)
        } else if n == consts::NS_STYLE_TEXT_ALIGN_LEFT {
            Some(TextAlign::Left)
        } else if n == consts::NS_STYLE_TEXT_ALIGN_RIGHT {
            Some(TextAlign::Right)
        } else if n == consts::NS_STYLE_TEXT_ALIGN_CENTER {
            Some(TextAlign::Center)
        } else if n == consts::NS_STYLE_TEXT_ALIGN_JUSTIFY {
            Some(TextAlign::Justify)
        } else if n == consts::NS_STYLE_TEXT_ALIGN_MOZ_CENTER {
            Some(TextAlign::MozCenter)
        } else if n == consts::NS_STYLE_TEXT_ALIGN_MOZ_LEFT {
            Some(TextAlign::MozLeft)
        } else if n == consts::NS_STYLE_TEXT_ALIGN_MOZ_RIGHT {
            Some(TextAlign::MozRight)
        } else if n == consts::NS_STYLE_TEXT_ALIGN_MATCH_PARENT {
            Some(TextAlign::MatchParent)
        } else {
            None
        }
    }
}

/// Each `TextAlign` keyword is stored as the Gecko constant of the same name,
/// and each of those constants reads back as the keyword of its name.
pub proof fn lemma_text_align_table()
    ensures
        spec_text_align_to_gecko(TextAlign::Start) == consts::NS_STYLE_TEXT_ALIGN_START,
        spec_text_align_to_gecko(TextAlign::End) == consts::NS_STYLE_TEXT_ALIGN_END,
        spec_text_align_to_gecko(TextAlign::Left) == consts::NS_STYLE_TEXT_ALIGN_LEFT,
        spec_text_align_to_gecko(TextAlign::Right) == consts::NS_STYLE_TEXT_ALIGN_RIGHT,
        spec_text_align_to_gecko(TextAlign::Center) == consts::NS_STYLE_TEXT_ALIGN_CENTER,
        spec_text_align_to_gecko(TextAlign::Justify) == consts::NS_STYLE_TEXT_ALIGN_JUSTIFY,
        spec_text_align_to_gecko(TextAlign::MozCenter) == consts::NS_STYLE_TEXT_ALIGN_MOZ_CENTER,
        spec_text_align_to_gecko(TextAlign::MozLeft) == consts::NS_STYLE_TEXT_ALIGN_MOZ_LEFT,
        spec_text_align_to_gecko(TextAlign::MozRight) == consts::NS_STYLE_TEXT_ALIGN_MOZ_RIGHT,
        spec_text_align_to_gecko(TextAlign::MatchParent) == consts::NS_STYLE_TEXT_ALIGN_MATCH_PARENT,
        spec_text_align_from_gecko(consts::NS_STYLE_TEXT_ALIGN_START) == Some(TextAlign::Start),
        spec_text_align_from_gecko(consts::NS_STYLE_TEXT_ALIGN_END) == Some(TextAlign::End),
        spec_text_align_from_gecko(consts::NS_STYLE_TEXT_ALIGN_LEFT) == Some(TextAlign::Left),
        spec_text_align_from_gecko(consts::NS_STYLE_TEXT_ALIGN_RIGHT) == Some(TextAlign::Right),
        spec_text_align_from_gecko(consts::NS_STYLE_TEXT_ALIGN_CENTER) == Some(TextAlign::Center),
        spec_text_align_from_gecko(consts::NS_STYLE_TEXT_ALIGN_JUSTIFY) == Some(TextAlign::Justify),
        spec_text_align_from_gecko(consts::NS_STYLE_TEXT_ALIGN_MOZ_CENTER) == Some(TextAlign::MozCenter),
        spec_text_align_from_gecko(consts::NS_STYLE_TEXT_ALIGN_MOZ_LEFT) == Some(TextAlign::MozLeft),
        spec_text_align_from_gecko(consts::NS_STYLE_TEXT_ALIGN_MOZ_RIGHT) == Some(TextAlign::MozRight),
        spec_text_align_from_gecko(consts::NS_STYLE_TEXT_ALIGN_MATCH_PARENT) == Some(TextAlign::MatchParent),
{
}

/// Each `TextAlign` keyword is read back from the constant stored for it, and a
/// constant that reads as a keyword is the one stored for that keyword.
pub proof fn lemma_text_align_roundtrip(k: TextAlign, n: u8)
    ensures
        spec_text_align_from_gecko(spec_text_align_to_gecko(k)) == Some(k),
        spec_text_align_from_gecko(n) == Some(k) ==> spec_text_align_to_gecko(k) == n,
{
}

/// A `list-style-type` keyword.
#[derive(Clone, Copy, Debug, PartialEq, Eq, Structural)]
pub enum ListStyleType {
    Disc,
    None_,
    Circle,
    Square,
    Decimal,
    LowerRoman,
    UpperRoman,
    LowerAlpha,
    UpperAlpha,
    LowerGreek,
    DisclosureOpen,
    DisclosureClosed,
}

/// The Gecko constant stored for each `ListStyleType` keyword.
pub open spec fn spec_list_style_type_to_gecko(k: ListStyleType) -> u32 {
    match k {
        ListStyleType::Disc => consts::NS_STYLE_LIST_STYLE_DISC,
        ListStyleType::None_ => consts::NS_STYLE_LIST_STYLE_NONE,
        ListStyleType::Circle => consts::NS_STYLE_LIST_STYLE_CIRCLE,
        ListStyleType::Square => consts::NS_STYLE_LIST_STYLE_SQUARE,
        ListStyleType::Decimal => consts::NS_STYLE_LIST_STYLE_DECIMAL,
        ListStyleType::LowerRoman => consts::NS_STYLE_LIST_STYLE_LOWER_ROMAN,
        ListStyleType::UpperRoman => consts::NS_STYLE_LIST_STYLE_UPPER_ROMAN,
        ListStyleType::LowerAlpha => consts::NS_STYLE_LIST_STYLE_LOWER_ALPHA,
        ListStyleType::UpperAlpha => consts::NS_STYLE_LIST_STYLE_UPPER_ALPHA,
        ListStyleType::LowerGreek => consts::NS_STYLE_LIST_STYLE_LOWER_GREEK,
        ListStyleType::DisclosureOpen => consts::NS_STYLE_LIST_STYLE_DISCLOSURE_OPEN,
        ListStyleType::DisclosureClosed => consts::NS_STYLE_LIST_STYLE_DISCLOSURE_CLOSED,
    }
}

/// The keyword that a stored Gecko constant stands for, if any.
pub open spec fn spec_list_style_type_from_gecko(n: u32) -> Option<ListStyleType> {
    if n == consts::NS_STYLE_LIST_STYLE_DISC {
        Some(ListStyleType::Disc)
    } else if n == consts::NS_STYLE_LIST_STYLE_NONE {
        Some(ListStyleType::None_)
    } else if n == consts::NS_STYLE_LIST_STYLE_CIRCLE {
        Some(ListStyleType::Circle)
    } else if n == consts::NS_STYLE_LIST_STYLE_SQUARE {
        Some(ListStyleType::Square)
    } else if n == consts::NS_STYLE_LIST_STYLE_DECIMAL {
        Some(ListStyleType::Decimal)
    } else if n == consts::NS_STYLE_LIST_STYLE_LOWER_ROMAN {
        Some(ListStyleType::LowerRoman)
    } else if n == consts::NS_STYLE_LIST_STYLE_UPPER_ROMAN {
        Some(ListStyleType::UpperRoman)
    } else if n == consts::NS_STYLE_LIST_STYLE_LOWER_ALPHA {
        Some(ListStyleType::LowerAlpha)
    } else if n == consts::NS_STYLE_LIST_STYLE_UPPER_ALPHA {
        Some(ListStyleType::UpperAlpha)
    } else if n == consts::NS_STYLE_LIST_STYLE_LOWER_GREEK {
        Some(ListStyleType::LowerGreek)
    } else if n == consts::NS_STYLE_LIST_STYLE_DISCLOSURE_OPEN {
        Some(ListStyleType::DisclosureOpen)
    } else if n == consts::NS_STYLE_LIST_STYLE_DISCLOSURE_CLOSED {
        Some(ListStyleType::DisclosureClosed)
    } else {
        None
    }
}

impl ListStyleType {
    /// The Gecko constant for this keyword.
    pub fn to_gecko(self) -> (r: u32)
        ensures
            r == spec_list_style_type_to_gecko(self),
    {
        match self {
            ListStyleType::Disc => consts::NS_STYLE_LIST_STYLE_DISC,
            ListStyleType::None_ => consts::NS_STYLE_LIST_STYLE_NONE,
            ListStyleType::Circle => consts::NS_STYLE_LIST_STYLE_CIRCLE,
            ListStyleType::Square => consts::NS_STYLE_LIST_STYLE_SQUARE,
            ListStyleType::Decimal => consts::NS_STYLE_LIST_STYLE_DECIMAL,
            ListStyleType::LowerRoman => consts::NS_STYLE_LIST_STYLE_LOWER_ROMAN,
            ListStyleType::UpperRoman => consts::NS_STYLE_LIST_STYLE_UPPER_ROMAN,
            ListStyleType::LowerAlpha => consts::NS_STYLE_LIST_STYLE_LOWER_ALPHA,
            ListStyleType::UpperAlpha => consts::NS_STYLE_LIST_STYLE_UPPER_ALPHA,
            ListStyleType::LowerGreek => consts::NS_STYLE_LIST_STYLE_LOWER_GREEK,
            ListStyleType::DisclosureOpen => consts::NS_STYLE_LIST_STYLE_DISCLOSURE_OPEN,
            ListStyleType::DisclosureClosed => consts::NS_STYLE_LIST_STYLE_DISCLOSURE_CLOSED,
        }
    }

    /// The keyword for a stored Gecko constant, if it stands for one.
    pub fn from_gecko(n: u32) -> (r: Option<ListStyleType>)
        ensures
            r == spec_list_style_type_from_gecko(n),
    {
        if n == consts::NS_STYLE_LIST_STYLE_DISC {
            Some(ListStyleType::Disc)
        } else if n == consts::NS_STYLE_LIST_STYLE_NONE {
            Some(ListStyleType::None_)
        } else if n == consts::NS_STYLE_LIST_STYLE_CIRCLE {
            Some(ListStyleType::Circle)
        } else if n == consts::NS_STYLE_LIST_STYLE_SQUARE {
            Some(ListStyleType::Square)
        } else if n == consts::NS_STYLE_LIST_STYLE_DECIMAL {
            Some(ListStyleType::Decimal)
        } else if n == consts::NS_STYLE_LIST_STYLE_LOWER_ROMAN {
            Some(ListStyleType::LowerRoman)
        } else if n == consts::NS_STYLE_LIST_STYLE_UPPER_ROMAN {
            Some(ListStyleType::UpperRoman)
        } else if n == consts::NS_STYLE_LIST_STYLE_LOWER_ALPHA {
            Some(ListStyleType::LowerAlpha)
        } else if n == consts::NS_STYLE_LIST_STYLE_UPPER_ALPHA {
            Some(ListStyleType::UpperAlpha)
        } else if n == consts::NS_STYLE_LIST_STYLE_LOWER_GREEK {
            Some(ListStyleType::LowerGreek)
        } else if n == consts::NS_STYLE_LIST_STYLE_DISCLOSURE_OPEN {
            Some(ListStyleType::DisclosureOpen)
        } else if n == consts::NS_STYLE_LIST_STYLE_DISCLOSURE_CLOSED {
            Some(ListStyleType::DisclosureClosed)
        } else {
            None
        }
    }
}

/// Each `ListStyleType` keyword is stored as the Gecko constant of the same name,
/// and each of those constants reads back as the keyword of its name.
pub proof fn lemma_list_style_type_table()
    ensures
        spec_list_style_type_to_gecko(ListStyleType::Disc) == consts::NS_STYLE_LIST_STYLE_DISC,
        spec_list_style_type_to_gecko(ListStyleType::None_) == consts::NS_STYLE_LIST_STYLE_NONE,
        spec_list_style_type_to_gecko(ListStyleType::Circle) == consts::NS_STYLE_LIST_STYLE_CIRCLE,
        spec_list_style_type_to_gecko(ListStyleType::Square) == consts::NS_STYLE_LIST_STYLE_SQUARE,
        spec_list_style_type_to_gecko(ListStyleType::Decimal) == consts::NS_STYLE_LIST_STYLE_DECIMAL,
        spec_list_style_type_to_gecko(ListStyleType::LowerRoman) == consts::NS_STYLE_LIST_STYLE_LOWER_ROMAN,
        spec_list_style_type_to_gecko(ListStyleType::UpperRoman) == consts::NS_STYLE_LIST_STYLE_UPPER_ROMAN,
        spec_list_style_type_to_gecko(ListStyleType::LowerAlpha) == consts::NS_STYLE_LIST_STYLE_LOWER_ALPHA,
        spec_list_style_type_to_gecko(ListStyleType::UpperAlpha) == consts::NS_STYLE_LIST_STYLE_UPPER_ALPHA,
        spec_list_style_type_to_gecko(ListStyleType::LowerGreek) == consts::NS_STYLE_LIST_STYLE_LOWER_GREEK,
        spec_list_style_type_to_gecko(ListStyleType::DisclosureOpen) == consts::NS_STYLE_LIST_STYLE_DISCLOSURE_OPEN,
        spec_list_style_type_to_gecko(ListStyleType::DisclosureClosed) == consts::NS_STYLE_LIST_STYLE_DISCLOSURE_CLOSED,
        spec_list_style_type_from_gecko(consts::NS_STYLE_LIST_STYLE_DISC) == Some(ListStyleType::Disc),
        spec_list_style_type_from_gecko(consts::NS_STYLE_LIST_STYLE_NONE) == Some(ListStyleType::None_),
        spec_list_style_type_from_gecko(consts::NS_STYLE_LIST_STYLE_CIRCLE) == Some(ListStyleType::Circle),
        spec_list_style_type_from_gecko(consts::NS_STYLE_LIST_STYLE_SQUARE) == Some(ListStyleType::Square),
        spec_list_style_type_from_gecko(consts::NS_STYLE_LIST_STYLE_DECIMAL) == Some(ListStyleType::Decimal),
        spec_list_style_type_from_gecko(consts::NS_STYLE_LIST_STYLE_LOWER_ROMAN) == Some(ListStyleType::LowerRoman),
        spec_list_style_type_from_gecko(consts::NS_STYLE_LIST_STYLE_UPPER_ROMAN) == Some(ListStyleType::UpperRoman),
        spec_list_style_type_from_gecko(consts::NS_STYLE_LIST_STYLE_LOWER_ALPHA) == Some(ListStyleType::LowerAlpha),
        spec_list_style_type_from_gecko(consts::NS_STYLE_LIST_STYLE_UPPER_ALPHA) == Some(ListStyleType::UpperAlpha),
        spec_list_style_type_from_gecko(consts::NS_STYLE_LIST_STYLE_LOWER_GREEK) == Some(ListStyleType::LowerGreek),
        spec_list_style_type_from_gecko(consts::NS_STYLE_LIST_STYLE_DISCLOSURE_OPEN) == Some(ListStyleType::DisclosureOpen),
        spec_list_style_type_from_gecko(consts::NS_STYLE_LIST_STYLE_DISCLOSURE_CLOSED) == Some(ListStyleType::DisclosureClosed),
{
}

/// Each `ListStyleType` keyword is read back from the constant stored for it, and a
/// constant that reads as a keyword is the one stored for that keyword.
pub proof fn lemma_list_style_type_roundtrip(k: ListStyleType, n: u32)
    ensures
        spec_list_style_type_from_gecko(spec_list_style_type_to_gecko(k)) == Some(k),
        spec_list_style_type_from_gecko(n) == Some(k) ==> spec_list_style_type_to_gecko(k) == n,
{
}

} // verus!
