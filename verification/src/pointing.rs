//! The pointing style struct: Gecko's `nsStyleUserInterface` and the
//! `cursor` property.
use vstd::prelude::*;
use std::sync::Arc;
use crate::consts;

verus! {

/// A cursor keyword.
#[derive(Clone, Copy, Debug, PartialEq, Eq, Structural)]
pub enum Cursor {
    None_,
    Default,
    Pointer,
    ContextMenu,
    Help,
    Progress,
    Wait,
    Cell,
    Crosshair,
    Text,
    VerticalText,
    Alias,
    Copy,
    Move,
    NoDrop,
    NotAllowed,
    Grab,
    Grabbing,
    EResize,
    NResize,
    NeResize,
    NwResize,
    SResize,
    SeResize,
    SwResize,
    WResize,
    EwResize,
    NsResize,
    NeswResize,
    NwseResize,
    ColResize,
    RowResize,
    AllScroll,
    ZoomIn,
    ZoomOut,
}

/// A computed `cursor`: `auto`, or a cursor keyword.
#[derive(Clone, Copy, Debug, PartialEq, Eq, Structural)]
pub enum CursorValue {
    AutoCursor,
    SpecifiedCursor(Cursor),
}

/// Gecko's `nsStyleUserInterface`, as far as the style system reads and writes it.
#[derive(Clone, Copy, Debug, PartialEq, Eq, Structural)]
pub struct NsStyleUserInterface {
    pub cursor: u8,
}

/// The pointing style struct.
#[derive(Debug)]
pub struct GeckoPointing {
    pub gecko: NsStyleUserInterface,
}

/// The Gecko constant stored for a cursor; `progress` is not supported and
/// is stored as the default cursor.
pub open spec fn spec_cursor_to_gecko(v: CursorValue) -> u8 {
    match v {
        CursorValue::AutoCursor => consts::NS_STYLE_CURSOR_AUTO,
        CursorValue::SpecifiedCursor(c) => match c {
            Cursor::None_ => consts::NS_STYLE_CURSOR_NONE,
            Cursor::Default => consts::NS_STYLE_CURSOR_DEFAULT,
            Cursor::Pointer => consts::NS_STYLE_CURSOR_POINTER,
            Cursor::ContextMenu => consts::NS_STYLE_CURSOR_CONTEXT_MENU,
            Cursor::Help => consts::NS_STYLE_CURSOR_HELP,
            Cursor::Progress => consts::NS_STYLE_CURSOR_DEFAULT,
            Cursor::Wait => consts::NS_STYLE_CURSOR_WAIT,
            Cursor::Cell => consts::NS_STYLE_CURSOR_CELL,
            Cursor::Crosshair => consts::NS_STYLE_CURSOR_CROSSHAIR,
            Cursor::Text => consts::NS_STYLE_CURSOR_TEXT,
            Cursor::VerticalText => consts::NS_STYLE_CURSOR_VERTICAL_TEXT,
            Cursor::Alias => consts::NS_STYLE_CURSOR_ALIAS,
            Cursor::Copy => consts::NS_STYLE_CURSOR_COPY,
            Cursor::Move => consts::NS_STYLE_CURSOR_MOVE,
            Cursor::NoDrop => consts::NS_STYLE_CURSOR_NO_DROP,
            Cursor::NotAllowed => consts::NS_STYLE_CURSOR_NOT_ALLOWED,
            Cursor::Grab => consts::NS_STYLE_CURSOR_GRAB,
            Cursor::Grabbing => consts::NS_STYLE_CURSOR_GRABBING,
            Cursor::EResize => consts::NS_STYLE_CURSOR_E_RESIZE,
            Cursor::NResize => consts::NS_STYLE_CURSOR_N_RESIZE,
            Cursor::NeResize => consts::NS_STYLE_CURSOR_NE_RESIZE,
            Cursor::NwResize => consts::NS_STYLE_CURSOR_NW_RESIZE,
            Cursor::SResize => consts::NS_STYLE_CURSOR_S_RESIZE,
            Cursor::SeResize => consts::NS_STYLE_CURSOR_SE_RESIZE,
            Cursor::SwResize => consts::NS_STYLE_CURSOR_SW_RESIZE,
            Cursor::WResize => consts::NS_STYLE_CURSOR_W_RESIZE,
            Cursor::EwResize => consts::NS_STYLE_CURSOR_EW_RESIZE,
            Cursor::NsResize => consts::NS_STYLE_CURSOR_NS_RESIZE,
            Cursor::NeswResize => consts::NS_STYLE_CURSOR_NESW_RESIZE,
            Cursor::NwseResize => consts::NS_STYLE_CURSOR_NWSE_RESIZE,
            Cursor::ColResize => consts::NS_STYLE_CURSOR_COL_RESIZE,
            Cursor::RowResize => consts::NS_STYLE_CURSOR_ROW_RESIZE,
            Cursor::AllScroll => consts::NS_STYLE_CURSOR_ALL_SCROLL,
            Cursor::ZoomIn => consts::NS_STYLE_CURSOR_ZOOM_IN,
            Cursor::ZoomOut => consts::NS_STYLE_CURSOR_ZOOM_OUT,
        },
    }
}

impl GeckoPointing {
    /// Whether the struct holds the initial values.
    pub open spec fn is_initial(self) -> bool {
        &&& self.gecko.cursor == consts::NS_STYLE_CURSOR_AUTO
    }

    /// The initial pointing struct: `cursor: auto`.
    pub fn initial() -> (r: Arc<GeckoPointing>)
        ensures
            r.is_initial(),
    {
        Arc::new(GeckoPointing { gecko: NsStyleUserInterface { cursor: consts::NS_STYLE_CURSOR_AUTO } })
    }

    /// The Gecko struct.
    pub fn get_gecko(&self) -> (r: &NsStyleUserInterface)
        ensures
            *r == self.gecko,
    {
        &self.gecko
    }

    /// Sets `cursor`.
    pub fn set_cursor(&mut self, v: CursorValue)
        ensures
            final(self).gecko.cursor == spec_cursor_to_gecko(v),
    {
        self.gecko.cursor = match v {
            CursorValue::AutoCursor => consts::NS_STYLE_CURSOR_AUTO,
            CursorValue::SpecifiedCursor(cursor) => match cursor {
                Cursor::None_ => consts::NS_STYLE_CURSOR_NONE,
                Cursor::Default => consts::NS_STYLE_CURSOR_DEFAULT,
                Cursor::Pointer => consts::NS_STYLE_CURSOR_POINTER,
                Cursor::ContextMenu => consts::NS_STYLE_CURSOR_CONTEXT_MENU,
                Cursor::Help => consts::NS_STYLE_CURSOR_HELP,
                Cursor::Progress => consts::NS_STYLE_CURSOR_DEFAULT,
                Cursor::Wait => consts::NS_STYLE_CURSOR_WAIT,
                Cursor::Cell => consts::NS_STYLE_CURSOR_CELL,
                Cursor::Crosshair => consts::NS_STYLE_CURSOR_CROSSHAIR,
                Cursor::Text => consts::NS_STYLE_CURSOR_TEXT,
                Cursor::VerticalText => consts::NS_STYLE_CURSOR_VERTICAL_TEXT,
                Cursor::Alias => consts::NS_STYLE_CURSOR_ALIAS,
                Cursor::Copy => consts::NS_STYLE_CURSOR_COPY,
                Cursor::Move => consts::NS_STYLE_CURSOR_MOVE,
                Cursor::NoDrop => consts::NS_STYLE_CURSOR_NO_DROP,
                Cursor::NotAllowed => consts::NS_STYLE_CURSOR_NOT_ALLOWED,
                Cursor::Grab => consts::NS_STYLE_CURSOR_GRAB,
                Cursor::Grabbing => consts::NS_STYLE_CURSOR_GRABBING,
                Cursor::EResize => consts::NS_STYLE_CURSOR_E_RESIZE,
                Cursor::NResize => consts::NS_STYLE_CURSOR_N_RESIZE,
                Cursor::NeResize => consts::NS_STYLE_CURSOR_NE_RESIZE,
                Cursor::NwResize => consts::NS_STYLE_CURSOR_NW_RESIZE,
                Cursor::SResize => consts::NS_STYLE_CURSOR_S_RESIZE,
                Cursor::SeResize => consts::NS_STYLE_CURSOR_SE_RESIZE,
                Cursor::SwResize => consts::NS_STYLE_CURSOR_SW_RESIZE,
                Cursor::WResize => consts::NS_STYLE_CURSOR_W_RESIZE,
                Cursor::EwResize => consts::NS_STYLE_CURSOR_EW_RESIZE,
                Cursor::NsResize => consts::NS_STYLE_CURSOR_NS_RESIZE,
                Cursor::NeswResize => consts::NS_STYLE_CURSOR_NESW_RESIZE,
                Cursor::NwseResize => consts::NS_STYLE_CURSOR_NWSE_RESIZE,
                Cursor::ColResize => consts::NS_STYLE_CURSOR_COL_RESIZE,
                Cursor::RowResize => consts::NS_STYLE_CURSOR_ROW_RESIZE,
                Cursor::AllScroll => consts::NS_STYLE_CURSOR_ALL_SCROLL,
                Cursor::ZoomIn => consts::NS_STYLE_CURSOR_ZOOM_IN,
                Cursor::ZoomOut => consts::NS_STYLE_CURSOR_ZOOM_OUT,
            },
        };
    }

    /// Copies `cursor` of another struct.
    pub fn copy_cursor_from(&mut self, other: &Self)
        ensures
            final(self).gecko.cursor == other.gecko.cursor,
    {
        self.gecko.cursor = other.gecko.cursor;
    }
}

impl GeckoPointing {
    /// Whether two structs hold the same values.
    pub open spec fn same_as(self, other: Self) -> bool {
        self.gecko == other.gecko
    }
}

impl Clone for GeckoPointing {
    fn clone(&self) -> (r: Self)
        ensures
            r.same_as(*self),
    {
        GeckoPointing { gecko: self.gecko }
    }
}

/// Distinct cursors are stored as distinct constants, except `progress`,
/// which is stored as the default cursor.
pub proof fn lemma_cursor_injective(a: CursorValue, b: CursorValue)
    requires
        a != b,
        a != CursorValue::SpecifiedCursor(Cursor::Progress),
        b != CursorValue::SpecifiedCursor(Cursor::Progress),
    ensures
        spec_cursor_to_gecko(a) != spec_cursor_to_gecko(b),
{
}

/// Each cursor keyword is stored as the Gecko constant of the same name;
/// `auto` as the auto cursor, and `progress`, which Gecko lacks here, as the
/// default cursor.
pub proof fn lemma_cursor_table()
    ensures
        spec_cursor_to_gecko(CursorValue::AutoCursor) == consts::NS_STYLE_CURSOR_AUTO,
        spec_cursor_to_gecko(CursorValue::SpecifiedCursor(Cursor::None_)) == consts::NS_STYLE_CURSOR_NONE,
        spec_cursor_to_gecko(CursorValue::SpecifiedCursor(Cursor::Default)) == consts::NS_STYLE_CURSOR_DEFAULT,
        spec_cursor_to_gecko(CursorValue::SpecifiedCursor(Cursor::Pointer)) == consts::NS_STYLE_CURSOR_POINTER,
        spec_cursor_to_gecko(CursorValue::SpecifiedCursor(Cursor::ContextMenu)) == consts::NS_STYLE_CURSOR_CONTEXT_MENU,
        spec_cursor_to_gecko(CursorValue::SpecifiedCursor(Cursor::Help)) == consts::NS_STYLE_CURSOR_HELP,
        spec_cursor_to_gecko(CursorValue::SpecifiedCursor(Cursor::Wait)) == consts::NS_STYLE_CURSOR_WAIT,
        spec_cursor_to_gecko(CursorValue::SpecifiedCursor(Cursor::Cell)) == consts::NS_STYLE_CURSOR_CELL,
        spec_cursor_to_gecko(CursorValue::SpecifiedCursor(Cursor::Crosshair)) == consts::NS_STYLE_CURSOR_CROSSHAIR,
        spec_cursor_to_gecko(CursorValue::SpecifiedCursor(Cursor::Text)) == consts::NS_STYLE_CURSOR_TEXT,
        spec_cursor_to_gecko(CursorValue::SpecifiedCursor(Cursor::VerticalText)) == consts::NS_STYLE_CURSOR_VERTICAL_TEXT,
        spec_cursor_to_gecko(CursorValue::SpecifiedCursor(Cursor::Alias)) == consts::NS_STYLE_CURSOR_ALIAS,
        spec_cursor_to_gecko(CursorValue::SpecifiedCursor(Cursor::Copy)) == consts::NS_STYLE_CURSOR_COPY,
        spec_cursor_to_gecko(CursorValue::SpecifiedCursor(Cursor::Move)) == consts::NS_STYLE_CURSOR_MOVE,
        spec_cursor_to_gecko(CursorValue::SpecifiedCursor(Cursor::NoDrop)) == consts::NS_STYLE_CURSOR_NO_DROP,
        spec_cursor_to_gecko(CursorValue::SpecifiedCursor(Cursor::NotAllowed)) == consts::NS_STYLE_CURSOR_NOT_ALLOWED,
        spec_cursor_to_gecko(CursorValue::SpecifiedCursor(Cursor::Grab)) == consts::NS_STYLE_CURSOR_GRAB,
        spec_cursor_to_gecko(CursorValue::SpecifiedCursor(Cursor::Grabbing)) == consts::NS_STYLE_CURSOR_GRABBING,
        spec_cursor_to_gecko(CursorValue::SpecifiedCursor(Cursor::EResize)) == consts::NS_STYLE_CURSOR_E_RESIZE,
        spec_cursor_to_gecko(CursorValue::SpecifiedCursor(Cursor::NResize)) == consts::NS_STYLE_CURSOR_N_RESIZE,
        spec_cursor_to_gecko(CursorValue::SpecifiedCursor(Cursor::NeResize)) == consts::NS_STYLE_CURSOR_NE_RESIZE,
        spec_cursor_to_gecko(CursorValue::SpecifiedCursor(Cursor::NwResize)) == consts::NS_STYLE_CURSOR_NW_RESIZE,
        spec_cursor_to_gecko(CursorValue::SpecifiedCursor(Cursor::SResize)) == consts::NS_STYLE_CURSOR_S_RESIZE,
        spec_cursor_to_gecko(CursorValue::SpecifiedCursor(Cursor::SeResize)) == consts::NS_STYLE_CURSOR_SE_RESIZE,
        spec_cursor_to_gecko(CursorValue::SpecifiedCursor(Cursor::SwResize)) == consts::NS_STYLE_CURSOR_SW_RESIZE,
        spec_cursor_to_gecko(CursorValue::SpecifiedCursor(Cursor::WResize)) == consts::NS_STYLE_CURSOR_W_RESIZE,
        spec_cursor_to_gecko(CursorValue::SpecifiedCursor(Cursor::EwResize)) == consts::NS_STYLE_CURSOR_EW_RESIZE,
        spec_cursor_to_gecko(CursorValue::SpecifiedCursor(Cursor::NsResize)) == consts::NS_STYLE_CURSOR_NS_RESIZE,
        spec_cursor_to_gecko(CursorValue::SpecifiedCursor(Cursor::NeswResize)) == consts::NS_STYLE_CURSOR_NESW_RESIZE,
        spec_cursor_to_gecko(CursorValue::SpecifiedCursor(Cursor::NwseResize)) == consts::NS_STYLE_CURSOR_NWSE_RESIZE,
        spec_cursor_to_gecko(CursorValue::SpecifiedCursor(Cursor::ColResize)) == consts::NS_STYLE_CURSOR_COL_RESIZE,
        spec_cursor_to_gecko(CursorValue::SpecifiedCursor(Cursor::RowResize)) == consts::NS_STYLE_CURSOR_ROW_RESIZE,
        spec_cursor_to_gecko(CursorValue::SpecifiedCursor(Cursor::AllScroll)) == consts::NS_STYLE_CURSOR_ALL_SCROLL,
        spec_cursor_to_gecko(CursorValue::SpecifiedCursor(Cursor::ZoomIn)) == consts::NS_STYLE_CURSOR_ZOOM_IN,
        spec_cursor_to_gecko(CursorValue::SpecifiedCursor(Cursor::ZoomOut)) == consts::NS_STYLE_CURSOR_ZOOM_OUT,
        spec_cursor_to_gecko(CursorValue::SpecifiedCursor(Cursor::Progress)) == consts::NS_STYLE_CURSOR_DEFAULT,
{
}

} // verus!
