use vstd::prelude::*;

verus! {

/// The pointer affordance that the UI toolkit asks for.
#[derive(Clone, Copy, Debug, PartialEq, Eq, Structural)]
pub enum Interaction {
    Normal,
    Hidden,
    Idle,
    ContextMenu,
    Help,
    Pointer,
    Progress,
    Wait,
    Cell,
    Crosshair,
    Text,
    Alias,
    Copy,
    Move,
    NoDrop,
    NotAllowed,
    Grab,
    Grabbing,
    ResizingHorizontally,
    ResizingVertically,
    ResizingDiagonallyUp,
    ResizingDiagonallyDown,
    ResizingColumn,
    ResizingRow,
    AllScroll,
    ZoomIn,
    ZoomOut,
}

/// What the compositor is asked to show for the pointer: a shape of the
/// cursor-shape protocol, by its number, or no cursor at all.
#[derive(Clone, Copy, Debug, PartialEq, Eq, Structural)]
pub enum CursorShape {
    Shape(u32),
    Hide,
}

pub const SHAPE_DEFAULT: u32 = 1;
pub const SHAPE_CONTEXT_MENU: u32 = 2;
pub const SHAPE_HELP: u32 = 3;
pub const SHAPE_POINTER: u32 = 4;
pub const SHAPE_PROGRESS: u32 = 5;
pub const SHAPE_WAIT: u32 = 6;
pub const SHAPE_CELL: u32 = 7;
pub const SHAPE_CROSSHAIR: u32 = 8;
pub const SHAPE_TEXT: u32 = 9;
pub const SHAPE_ALIAS: u32 = 11;
pub const SHAPE_COPY: u32 = 12;
pub const SHAPE_MOVE: u32 = 13;
pub const SHAPE_NO_DROP: u32 = 14;
pub const SHAPE_NOT_ALLOWED: u32 = 15;
pub const SHAPE_GRAB: u32 = 16;
pub const SHAPE_GRABBING: u32 = 17;
pub const SHAPE_EW_RESIZE: u32 = 26;
pub const SHAPE_NS_RESIZE: u32 = 27;
pub const SHAPE_NESW_RESIZE: u32 = 28;
pub const SHAPE_NWSE_RESIZE: u32 = 29;
pub const SHAPE_COL_RESIZE: u32 = 30;
pub const SHAPE_ROW_RESIZE: u32 = 31;
pub const SHAPE_ALL_SCROLL: u32 = 32;
pub const SHAPE_ZOOM_IN: u32 = 33;
pub const SHAPE_ZOOM_OUT: u32 = 34;

/// The cursor-shape protocol's shape for each affordance. Every affordance
/// has one, so that a change of affordance always yields one request: an
/// idle pointer takes the default shape, and resizing along an axis or a
/// diagonal takes the protocol's two-headed arrow for that direction
/// (`ew-resize`, `ns-resize`, `nesw-resize`, `nwse-resize`).
pub open spec fn spec_cursor_shape(interaction: Interaction) -> CursorShape {
    match interaction {
        Interaction::Normal => CursorShape::Shape(SHAPE_DEFAULT),
        Interaction::Hidden => CursorShape::Hide,
        Interaction::Idle => CursorShape::Shape(SHAPE_DEFAULT),
        Interaction::ContextMenu => CursorShape::Shape(SHAPE_CONTEXT_MENU),
        Interaction::Help => CursorShape::Shape(SHAPE_HELP),
        Interaction::Pointer => CursorShape::Shape(SHAPE_POINTER),
        Interaction::Progress => CursorShape::Shape(SHAPE_PROGRESS),
        Interaction::Wait => CursorShape::Shape(SHAPE_WAIT),
        Interaction::Cell => CursorShape::Shape(SHAPE_CELL),
        Interaction::Crosshair => CursorShape::Shape(SHAPE_CROSSHAIR),
        Interaction::Text => CursorShape::Shape(SHAPE_TEXT),
        Interaction::Alias => CursorShape::Shape(SHAPE_ALIAS),
        Interaction::Copy => CursorShape::Shape(SHAPE_COPY),
        Interaction::Move => CursorShape::Shape(SHAPE_MOVE),
        Interaction::NoDrop => CursorShape::Shape(SHAPE_NO_DROP),
        Interaction::NotAllowed => CursorShape::Shape(SHAPE_NOT_ALLOWED),
        Interaction::Grab => CursorShape::Shape(SHAPE_GRAB),
        Interaction::Grabbing => CursorShape::Shape(SHAPE_GRABBING),
        Interaction::ResizingHorizontally => CursorShape::Shape(SHAPE_EW_RESIZE),
        Interaction::ResizingVertically => CursorShape::Shape(SHAPE_NS_RESIZE),
        Interaction::ResizingDiagonallyUp => CursorShape::Shape(SHAPE_NESW_RESIZE),
        Interaction::ResizingDiagonallyDown => CursorShape::Shape(SHAPE_NWSE_RESIZE),
        Interaction::ResizingColumn => CursorShape::Shape(SHAPE_COL_RESIZE),
        Interaction::ResizingRow => CursorShape::Shape(SHAPE_ROW_RESIZE),
        Interaction::AllScroll => CursorShape::Shape(SHAPE_ALL_SCROLL),
        Interaction::ZoomIn => CursorShape::Shape(SHAPE_ZOOM_IN),
        Interaction::ZoomOut => CursorShape::Shape(SHAPE_ZOOM_OUT),
    }
}

/// The shape to request for an affordance.
pub fn cursor_shape(interaction: Interaction) -> (r: CursorShape)
    ensures
        r == spec_cursor_shape(interaction),
{
    match interaction {
        Interaction::Normal => CursorShape::Shape(SHAPE_DEFAULT),
        Interaction::Hidden => CursorShape::Hide,
        Interaction::Idle => CursorShape::Shape(SHAPE_DEFAULT),
        Interaction::ContextMenu => CursorShape::Shape(SHAPE_CONTEXT_MENU),
        Interaction::Help => CursorShape::Shape(SHAPE_HELP),
        Interaction::Pointer => CursorShape::Shape(SHAPE_POINTER),
        Interaction::Progress => CursorShape::Shape(SHAPE_PROGRESS),
        Interaction::Wait => CursorShape::Shape(SHAPE_WAIT),
        Interaction::Cell => CursorShape::Shape(SHAPE_CELL),
        Interaction::Crosshair => CursorShape::Shape(SHAPE_CROSSHAIR),
        Interaction::Text => CursorShape::Shape(SHAPE_TEXT),
        Interaction::Alias => CursorShape::Shape(SHAPE_ALIAS),
        Interaction::Copy => CursorShape::Shape(SHAPE_COPY),
        Interaction::Move => CursorShape::Shape(SHAPE_MOVE),
        Interaction::NoDrop => CursorShape::Shape(SHAPE_NO_DROP),
        Interaction::NotAllowed => CursorShape::Shape(SHAPE_NOT_ALLOWED),
        Interaction::Grab => CursorShape::Shape(SHAPE_GRAB),
        Interaction::Grabbing => CursorShape::Shape(SHAPE_GRABBING),
        Interaction::ResizingHorizontally => CursorShape::Shape(SHAPE_EW_RESIZE),
        Interaction::ResizingVertically => CursorShape::Shape(SHAPE_NS_RESIZE),
        Interaction::ResizingDiagonallyUp => CursorShape::Shape(SHAPE_NESW_RESIZE),
        Interaction::ResizingDiagonallyDown => CursorShape::Shape(SHAPE_NWSE_RESIZE),
        Interaction::ResizingColumn => CursorShape::Shape(SHAPE_COL_RESIZE),
        Interaction::ResizingRow => CursorShape::Shape(SHAPE_ROW_RESIZE),
        Interaction::AllScroll => CursorShape::Shape(SHAPE_ALL_SCROLL),
        Interaction::ZoomIn => CursorShape::Shape(SHAPE_ZOOM_IN),
        Interaction::ZoomOut => CursorShape::Shape(SHAPE_ZOOM_OUT),
    }
}

} // verus!
