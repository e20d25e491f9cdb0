use vstd::prelude::*;

use crate::geometry::{Fixed, Rect, SurfaceSize};
use crate::object::{Interface, Object};

verus! {

/// `wl_shm` pixel format of every buffer: 32-bit premultiplied ARGB.
pub const FORMAT_ARGB8888: u32 = 0;

/// Layer-surface anchor bits.
pub const ANCHOR_TOP: u32 = 1;
pub const ANCHOR_LEFT: u32 = 4;
pub const ANCHOR_RIGHT: u32 = 8;

/// Positioner anchor and gravity: the bottom edge.
pub const POSITIONER_BOTTOM: u32 = 2;

/// Positioner constraint adjustments: slide along x, then along y.
pub const SLIDE_X: u32 = 1;
pub const SLIDE_Y: u32 = 2;

/// A request that the panel makes of the compositor. They are issued in the
/// order in which the library hands them out.
#[derive(Debug, PartialEq, Eq, Structural)]
pub enum Request {
    /// Allocate a zeroed shared-memory buffer of `size` bytes and expose it as
    /// a `width` x `height` buffer with rows of `stride` bytes.
    CreateBuffer { buffer: u64, width: u32, height: u32, stride: u32, size: u32 },
    /// Release the compositor's buffer resource, then unmap its memory.
    DestroyBuffer { buffer: u64 },
    /// Paint the pending frame into the buffer, clipped to the damage
    /// requests that follow.
    Paint { surface: Object, buffer: u64 },
    /// Attach the buffer to the surface at offset (0, 0).
    Attach { surface: Object, buffer: u64 },
    Damage { surface: Object, rect: Rect },
    Commit { surface: Object },
    /// Subscribe to one "frame done" notification of the surface.
    Frame { surface: Object },
    SetBufferScale { surface: Object, scale: u32 },
    SetCursorShape { serial: u32, shape: u32 },
    HideCursor { serial: u32 },
    Destroy { object: Object, interface: Interface },
    /// Size of the layer surface; a zero side is left to the compositor.
    LayerSize { layer_surface: Object, width: u32, height: u32 },
    /// Edges the layer surface is anchored to, as a set of `ANCHOR_*` bits.
    LayerAnchor { layer_surface: Object, anchor: u32 },
    /// Height of the screen area that the layer surface reserves.
    LayerExclusiveZone { layer_surface: Object, zone: i32 },
    PositionerSize { positioner: Object, width: u32, height: u32 },
    PositionerAnchorRect { positioner: Object, x: u32, y: u32, width: u32, height: u32 },
    PositionerAnchor { positioner: Object, anchor: u32 },
    PositionerGravity { positioner: Object, gravity: u32 },
    PositionerConstraint { positioner: Object, adjustment: u32 },
    /// Make the popup object `popup` of `xdg_surface`, placed by
    /// `positioner`, over the popup surface `parent` if there is one.
    GetPopup { xdg_surface: Object, popup: Object, positioner: Object, parent: Option<Object> },
    /// Give the layer surface the parentless popup `popup`.
    LayerGetPopup { layer_surface: Object, popup: Object },
    /// Flush the connection.
    Flush,
}

/// A pointer event as the compositor delivers it.
#[derive(Clone, Copy, Debug, PartialEq, Eq, Structural)]
pub enum MouseEvent {
    /// The pointer came onto the surface (synthesized on entry).
    Entered,
    Moved { x: Fixed, y: Fixed },
    Pressed { button: u32 },
    Released { button: u32 },
    Left,
}

/// An event of the compositor connection.
#[derive(Clone, Copy, Debug, PartialEq, Eq, Structural)]
pub enum Event {
    /// A configuration of the layer surface or popup `object`.
    Resize { object: Object, size: SurfaceSize },
    Rescale { surface: Object, factor: u32 },
    Enter { surface: Object, serial: u32 },
    Mouse(MouseEvent),
    CallbackDone(Object),
}

} // verus!
