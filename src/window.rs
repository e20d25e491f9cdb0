use vstd::prelude::*;

use crate::buffer::{byte_size_of, fits, Buffer, ClipMask, Viewport};
use crate::cursor::{cursor_shape, spec_cursor_shape, CursorShape, Interaction};
use crate::geometry::{i32_max, Fixed, FixedRect, Rect, SurfaceSize};
use crate::object::{Interface, Object};
use crate::protocol::{MouseEvent, Request};

verus! {

/// How the compositor lays a window out.
#[derive(Clone, Copy, Debug, PartialEq, Eq, Structural)]
pub enum Role {
    /// An anchored panel with an exclusive zone; it lives as long as the process.
    Layer { layer_surface: Object },
    /// A positioned popup with its three sub-objects and the size it asked for.
    Popup { xdg_surface: Object, popup: Object, positioner: Object, size: SurfaceSize },
}

impl Role {
    /// The role object under which the compositor's configuration events arrive.
    pub open spec fn spec_key(self) -> Object {
        match self {
            Role::Layer { layer_surface } => layer_surface,
            Role::Popup { popup, .. } => popup,
        }
    }

    pub fn key(&self) -> (r: Object)
        ensures
            r == self.spec_key(),
    {
        match self {
            Role::Layer { layer_surface } => *layer_surface,
            Role::Popup { popup, .. } => *popup,
        }
    }

    /// The requests that destroy the role's objects, children first.
    pub open spec fn spec_destroy(self) -> Seq<Request> {
        match self {
            Role::Layer { layer_surface } => seq![
                Request::Destroy { object: layer_surface, interface: Interface::LayerSurface },
            ],
            Role::Popup { xdg_surface, popup, positioner, .. } => seq![
                Request::Destroy { object: popup, interface: Interface::XdgPopup },
                Request::Destroy { object: xdg_surface, interface: Interface::XdgSurface },
                Request::Destroy { object: positioner, interface: Interface::XdgPositioner },
            ],
        }
    }

    pub fn destroy(&self) -> (r: Vec<Request>)
        ensures
            r@ == self.spec_destroy(),
    {
        let mut r: Vec<Request> = Vec::new();
        match self {
            Role::Layer { layer_surface } => {
                r.push(Request::Destroy { object: *layer_surface, interface: Interface::LayerSurface });
            },
            Role::Popup { xdg_surface, popup, positioner, .. } => {
                r.push(Request::Destroy { object: *popup, interface: Interface::XdgPopup });
                r.push(Request::Destroy { object: *xdg_surface, interface: Interface::XdgSurface });
                r.push(Request::Destroy { object: *positioner, interface: Interface::XdgPositioner });
            },
        }
        r
    }
}

/// A window's base surface with its role.
#[derive(Clone, Copy, Debug, PartialEq, Eq, Structural)]
pub struct Surface {
    pub role: Role,
    pub surface: Object,
}

impl Surface {
    /// The identities under which the window is registered.
    pub open spec fn owns(self, o: Object) -> bool {
        o == self.surface || o == self.role.spec_key()
    }

    pub open spec fn wf(self) -> bool {
        self.surface != self.role.spec_key()
    }

    /// Teardown: the role's objects, then the base surface.
    pub open spec fn spec_destroy(self) -> Seq<Request> {
        self.role.spec_destroy().push(
            Request::Destroy { object: self.surface, interface: Interface::Surface },
        )
    }
}

/// What a window shows.
#[derive(Clone, Copy, Debug, PartialEq, Eq, Structural)]
pub enum Tag {
    Bar,
    Tooltip,
}

/// Why a surface size or scale has no buffer.
#[derive(Clone, Copy, Debug, PartialEq, Eq, Structural)]
pub enum BufferError {
    /// A side of the surface is zero.
    Empty,
    /// The buffer would not fit the compositor's 32-bit pool length.
    TooLarge,
    /// A scale of zero.
    ZeroScale,
}

/// Why no buffer can be made for `size` at the positive `scale`, if so.
pub open spec fn size_error(size: SurfaceSize, scale: u32) -> Option<BufferError> {
    if size.width == 0 || size.height == 0 {
        Some(BufferError::Empty)
    } else if byte_size_of(size, scale) > i32_max() {
        Some(BufferError::TooLarge)
    } else {
        None
    }
}

/// The configuration state machine of a window.
pub enum ConfigState {
    /// A buffer is attached at a known viewport. `cached_ui` is false once the
    /// UI tree is outdated; `last_frame` tells whether a frame was drawn into
    /// this buffer, against which the next one is diffed.
    Configured { buffer: Buffer, clip_mask: ClipMask, cached_ui: bool, last_frame: bool },
    /// No configuration yet: no buffer, only the scale to use for the first.
    Unconfigured { scale_factor: u32 },
}

impl ConfigState {
    pub fn new() -> (r: ConfigState)
        ensures
            r == (ConfigState::Unconfigured { scale_factor: 1 }),
    {
        ConfigState::Unconfigured { scale_factor: 1 }
    }

    pub open spec fn wf(&self) -> bool {
        match self {
            ConfigState::Configured { buffer, clip_mask, .. } => {
                &&& buffer.viewport.wf()
                &&& clip_mask@.width == buffer.viewport.spec_buffer_width()
                &&& clip_mask@.height == buffer.viewport.spec_buffer_height()
            },
            ConfigState::Unconfigured { scale_factor } => *scale_factor > 0,
        }
    }

    /// The scale that the next buffer is made at.
    pub open spec fn spec_scale(&self) -> u32 {
        match self {
            ConfigState::Configured { buffer, .. } => buffer.viewport.buffer_scale,
            ConfigState::Unconfigured { scale_factor } => *scale_factor,
        }
    }

    pub fn scale(&self) -> (r: u32)
        ensures
            r == self.spec_scale(),
    {
        match self {
            ConfigState::Configured { buffer, .. } => buffer.viewport.buffer_scale,
            ConfigState::Unconfigured { scale_factor } => *scale_factor,
        }
    }

    /// The state once the cached UI tree is marked outdated.
    pub open spec fn spec_outdated(self) -> ConfigState {
        match self {
            ConfigState::Configured { buffer, clip_mask, last_frame, .. } => ConfigState::Configured {
                buffer,
                clip_mask,
                cached_ui: false,
                last_frame,
            },
            ConfigState::Unconfigured { scale_factor } => ConfigState::Unconfigured { scale_factor },
        }
    }

    /// Marks the cached UI tree outdated; nothing else changes.
    pub fn outdate(&mut self)
        ensures
            *final(self) == old(self).spec_outdated(),
    {
        match self {
            ConfigState::Configured { cached_ui, .. } => {
                *cached_ui = false;
            },
            ConfigState::Unconfigured { .. } => {},
        }
    }

    /// The release of the buffer that a new one replaces.
    pub open spec fn spec_release(&self) -> Seq<Request> {
        match self {
            ConfigState::Configured { buffer, .. } => seq![
                Request::DestroyBuffer { buffer: buffer.buffer },
            ],
            ConfigState::Unconfigured { .. } => seq![],
        }
    }
}

/// The whole surface, in whole pixels.
pub open spec fn full_bounds(size: SurfaceSize) -> Rect {
    Rect { x: 0, y: 0, width: size.width as i32, height: size.height as i32 }
}

/// Damage of a frame: the toolkit's changed regions rounded out to whole
/// pixels where a previous frame is in the buffer, else the whole surface.
pub open spec fn spec_damage(changed: Seq<FixedRect>, last_frame: bool, size: SurfaceSize) -> Seq<Rect> {
    if last_frame {
        changed.map_values(|f: FixedRect| Rect::spec_rounded_out(f))
    } else {
        seq![full_bounds(size)]
    }
}

/// The requests that present a frame: paint, attach at (0, 0), one damage
/// request for each rectangle, commit and flush.
pub open spec fn spec_present(surface: Object, buffer: u64, damage: Seq<Rect>) -> Seq<Request> {
    seq![Request::Paint { surface, buffer }, Request::Attach { surface, buffer }]
        + damage.map_values(|rect: Rect| Request::Damage { surface, rect })
        + seq![Request::Commit { surface }, Request::Flush]
}

/// The request that shows the cursor shape for `interaction`.
pub open spec fn spec_shape_request(serial: u32, interaction: Interaction) -> Request {
    match spec_cursor_shape(interaction) {
        CursorShape::Shape(shape) => Request::SetCursorShape { serial, shape },
        CursorShape::Hide => Request::HideCursor { serial },
    }
}

/// What the UI toolkit reported after it handled an event: the affordance
/// it asks for (none when its tree was outdated and it did not update) and
/// whether it wants the next frame.
#[derive(Clone, Copy, Debug, PartialEq, Eq, Structural)]
pub struct UiOutcome {
    pub interaction: Option<Interaction>,
    pub redraw: bool,
}

/// The per-window state: pointer, configuration and frame scheduling.
pub struct State {
    /// Last pointer position over the window, if the pointer is on it.
    pub cursor: Option<(Fixed, Fixed)>,
    /// Serial of the pointer's entry, needed for shape requests.
    pub serial: Option<u32>,
    /// The affordance whose shape was last requested.
    pub shape: Option<Interaction>,
    pub config_state: ConfigState,
    /// A frame notification was asked for and has not fired.
    pub frame_requested: bool,
    /// Its callback object, once the compositor has named it.
    pub frame_callback: Option<Object>,
}

impl State {
    pub open spec fn wf(&self) -> bool {
        &&& self.config_state.wf()
        &&& self.frame_callback is Some ==> self.frame_requested
    }

    /// The pointer state right after `event`, before the toolkit handles it.
    pub open spec fn spec_pointer(self, event: MouseEvent) -> (Option<(Fixed, Fixed)>, Option<u32>, Option<Interaction>) {
        match event {
            MouseEvent::Moved { x, y } => (Some((x, y)), self.serial, self.shape),
            MouseEvent::Left => (None, None, None),
            _ => (self.cursor, self.serial, self.shape),
        }
    }
}

/// One addressable on-screen surface.
pub struct Window {
    pub surface: Surface,
    pub tag: Tag,
    pub state: State,
}

impl Window {
    pub open spec fn wf(&self) -> bool {
        self.surface.wf() && self.state.wf()
    }

    /// A window that is not configured yet and has no pointer on it.
    pub fn new(surface: Surface, tag: Tag) -> (r: Window)
        ensures
            r.surface == surface,
            r.tag == tag,
            r.state.cursor is None,
            r.state.serial is None,
            r.state.shape is None,
            r.state.config_state == (ConfigState::Unconfigured { scale_factor: 1 }),
            !r.state.frame_requested,
            r.state.frame_callback is None,
    {
        Window {
            surface,
            tag,
            state: State {
                cursor: None,
                serial: None,
                shape: None,
                config_state: ConfigState::new(),
                frame_requested: false,
                frame_callback: None,
            },
        }
    }

    /// The requests that ask for the next frame: none while one is awaited.
    pub open spec fn spec_frame_requests(&self) -> Seq<Request> {
        if self.state.frame_requested {
            seq![]
        } else {
            seq![Request::Frame { surface: self.surface.surface }, Request::Commit { surface: self.surface.surface }]
        }
    }

    /// Asks for one frame notification and commits so that it fires; a
    /// request while one is awaited is merged into it.
    pub fn request_redraw(&mut self) -> (r: Vec<Request>)
        ensures
            r@ == old(self).spec_frame_requests(),
            final(self).state.frame_requested,
            final(self).surface == old(self).surface,
            final(self).tag == old(self).tag,
            final(self).state.config_state == old(self).state.config_state,
            final(self).state.cursor == old(self).state.cursor,
            final(self).state.serial == old(self).state.serial,
            final(self).state.shape == old(self).state.shape,
            final(self).state.frame_callback == old(self).state.frame_callback,
    {
        let mut r: Vec<Request> = Vec::new();
        if !self.state.frame_requested {
            self.state.frame_requested = true;
            r.push(Request::Frame { surface: self.surface.surface });
            r.push(Request::Commit { surface: self.surface.surface });
        }
        r
    }
}

impl Window {
    /// The requests that replace the window's buffer by `buffer`: make it,
    /// attach it, then release the one it replaces.
    pub open spec fn spec_swap_buffer(&self, buffer: Buffer) -> Seq<Request> {
        seq![buffer.spec_create_request(), Request::Attach { surface: self.surface.surface, buffer: buffer.buffer }]
            + self.state.config_state.spec_release()
    }

    /// Replaces the buffer by a new one, named `buffer`, of `viewport`.
    fn swap_buffer(&mut self, viewport: Viewport, buffer: u64, cached_ui: bool) -> (r: Vec<Request>)
        requires
            old(self).wf(),
            viewport.wf(),
        ensures
            final(self).wf(),
            r@ == old(self).spec_swap_buffer(Buffer { buffer, viewport }),
            final(self).state.config_state matches ConfigState::Configured { buffer: b, cached_ui: c, last_frame, .. }
                && b == (Buffer { buffer, viewport }) && c == cached_ui && !last_frame,
            final(self).surface == old(self).surface,
            final(self).tag == old(self).tag,
            final(self).state.cursor == old(self).state.cursor,
            final(self).state.serial == old(self).state.serial,
            final(self).state.shape == old(self).state.shape,
            final(self).state.frame_requested == old(self).state.frame_requested,
            final(self).state.frame_callback == old(self).state.frame_callback,
    {
        let new_buffer = Buffer { buffer, viewport };
        let mut r: Vec<Request> = Vec::new();
        r.push(new_buffer.create_request());
        r.push(Request::Attach { surface: self.surface.surface, buffer });
        match &self.state.config_state {
            ConfigState::Configured { buffer: old_buffer, .. } => {
                r.push(Request::DestroyBuffer { buffer: old_buffer.buffer });
            },
            ConfigState::Unconfigured { .. } => {},
        }
        let clip_mask = ClipMask::for_viewport(&viewport);
        self.state.config_state = ConfigState::Configured {
            buffer: new_buffer,
            clip_mask,
            cached_ui,
            last_frame: false,
        };
        proof {
            assert(r@ == old(self).spec_swap_buffer(Buffer { buffer, viewport }));
        }
        r
    }

    /// Takes a configuration of `size`. The first one makes the window
    /// configured; each one makes a new buffer named `buffer` at the current
    /// scale, attaches it before the old one is released, lays the UI out
    /// anew, forgets the previous frame and asks for a redraw. Where no buffer
    /// fits, nothing changes.
    pub fn resize(&mut self, size: SurfaceSize, buffer: u64) -> (r: Result<Vec<Request>, BufferError>)
        requires
            old(self).wf(),
        ensures
            final(self).wf(),
            match size_error(size, old(self).state.config_state.spec_scale()) {
                Some(e) => r == Err::<Vec<Request>, BufferError>(e) && *final(self) == *old(self),
                None => r matches Ok(reqs) && spec_resized(*old(self), *final(self), size, buffer, reqs@),
            },
    {
        let scale = self.state.config_state.scale();
        if size.width == 0 || size.height == 0 {
            return Err(BufferError::Empty);
        }
        let viewport = match Viewport::new(size, scale) {
            Some(v) => v,
            None => {
                return Err(BufferError::TooLarge);
            },
        };
        let mut r = self.swap_buffer(viewport, buffer, true);
        let mut frame = self.request_redraw();
        r.append(&mut frame);
        r.push(Request::Flush);
        Ok(r)
    }

    /// Takes a new preferred scale. The same scale again changes nothing. A
    /// configured window gets a buffer named `buffer` at the new scale,
    /// attached before the old one is released, forgets the previous frame and
    /// asks for a redraw; an unconfigured one keeps the scale for its first
    /// buffer. The compositor is told the new scale either way. A scale of zero,
    /// or one at which no buffer fits, changes nothing.
    pub fn rescale(&mut self, scale: u32, buffer: u64) -> (r: Result<Vec<Request>, BufferError>)
        requires
            old(self).wf(),
        ensures
            final(self).wf(),
            match rescale_error(*old(self), scale) {
                Some(e) => r == Err::<Vec<Request>, BufferError>(e) && *final(self) == *old(self),
                None => r matches Ok(reqs) && spec_rescaled(*old(self), *final(self), scale, buffer, reqs@),
            },
    {
        if scale == 0 {
            return Err(BufferError::ZeroScale);
        }
        let surface = self.surface.surface;
        let (viewport, cached_ui) = match &self.state.config_state {
            ConfigState::Unconfigured { .. } => {
                self.state.config_state = ConfigState::Unconfigured { scale_factor: scale };
                let mut r: Vec<Request> = Vec::new();
                r.push(Request::SetBufferScale { surface, scale });
                r.push(Request::Flush);
                return Ok(r);
            },
            ConfigState::Configured { buffer: old_buffer, cached_ui, .. } => {
                if old_buffer.viewport.buffer_scale == scale {
                    return Ok(Vec::new());
                }
                (old_buffer.viewport, *cached_ui)
            },
        };
        if !Viewport::fits(viewport.surface_size, scale) {
            return Err(BufferError::TooLarge);
        }
        let viewport = viewport.with_buffer_scale(scale);
        let mut r = self.swap_buffer(viewport, buffer, cached_ui);
        r.push(Request::SetBufferScale { surface, scale });
        let mut frame = self.request_redraw();
        r.append(&mut frame);
        r.push(Request::Flush);
        Ok(r)
    }
}

/// `post` keeps `pre`'s surface, tag and pointer state.
pub open spec fn same_identity_and_pointer(pre: Window, post: Window) -> bool {
    &&& post.surface == pre.surface
    &&& post.tag == pre.tag
    &&& post.state.cursor == pre.state.cursor
    &&& post.state.serial == pre.state.serial
    &&& post.state.shape == pre.state.shape
}

/// A configuration of `size` took `pre` to `post` with buffer `buffer` and
/// made `reqs`: a buffer of `size` at the current scale is made and attached
/// before the old one goes, the UI is laid out, the previous frame is
/// forgotten and a redraw is asked for.
pub open spec fn spec_resized(pre: Window, post: Window, size: SurfaceSize, buffer: u64, reqs: Seq<Request>) -> bool {
    let viewport = Viewport {
        surface_size: size,
        buffer_scale: pre.state.config_state.spec_scale(),
        buffer_transform: crate::buffer::TRANSFORM_NORMAL,
    };
    &&& reqs =~= pre.spec_swap_buffer(Buffer { buffer, viewport }) + pre.spec_frame_requests() + seq![Request::Flush]
    &&& post.state.config_state matches ConfigState::Configured { buffer: b, cached_ui, last_frame, .. }
        && b == (Buffer { buffer, viewport }) && cached_ui && !last_frame
    &&& post.state.frame_requested
    &&& post.state.frame_callback == pre.state.frame_callback
    &&& same_identity_and_pointer(pre, post)
}

/// Why a rescale of `w` to `scale` changes nothing, if it fails.
pub open spec fn rescale_error(w: Window, scale: u32) -> Option<BufferError> {
    if scale == 0 {
        Some(BufferError::ZeroScale)
    } else {
        match w.state.config_state {
            ConfigState::Configured { buffer, .. } => if scale != buffer.viewport.buffer_scale
                && size_error(buffer.viewport.surface_size, scale) is Some {
                Some(BufferError::TooLarge)
            } else {
                None
            },
            ConfigState::Unconfigured { .. } => None,
        }
    }
}

/// A rescale to `scale` that did not fail took `pre` to `post`, naming a new
/// buffer `buffer` if it made one, and made `reqs`.
pub open spec fn spec_rescaled(pre: Window, post: Window, scale: u32, buffer: u64, reqs: Seq<Request>) -> bool {
    &&& same_identity_and_pointer(pre, post)
    &&& match pre.state.config_state {
        ConfigState::Unconfigured { .. } => {
            &&& reqs =~= seq![Request::SetBufferScale { surface: pre.surface.surface, scale }, Request::Flush]
            &&& post.state.config_state == (ConfigState::Unconfigured { scale_factor: scale })
            &&& post.state.frame_requested == pre.state.frame_requested
            &&& post.state.frame_callback == pre.state.frame_callback
        },
        ConfigState::Configured { buffer: ob, cached_ui: oc, .. } => if scale == ob.viewport.buffer_scale {
            reqs.len() == 0 && post == pre
        } else {
            let viewport = Viewport { buffer_scale: scale, ..ob.viewport };
            &&& reqs =~= pre.spec_swap_buffer(Buffer { buffer, viewport })
                + seq![Request::SetBufferScale { surface: pre.surface.surface, scale }]
                + pre.spec_frame_requests() + seq![Request::Flush]
            &&& post.state.config_state matches ConfigState::Configured { buffer: b, cached_ui, last_frame, .. }
                && b == (Buffer { buffer, viewport }) && cached_ui == oc && !last_frame
            &&& post.state.frame_requested
            &&& post.state.frame_callback == pre.state.frame_callback
        },
    }
}

/// A redraw with the toolkit's `changed` regions took `pre` to `post` and
/// made `reqs`.
pub open spec fn spec_redrawn(pre: Window, post: Window, changed: Seq<FixedRect>, reqs: Seq<Request>) -> bool {
    &&& same_identity_and_pointer(pre, post)
    &&& post.state.frame_requested == pre.state.frame_requested
    &&& post.state.frame_callback == pre.state.frame_callback
    &&& match pre.state.config_state {
        ConfigState::Configured { buffer: ob, clip_mask: om, last_frame: ol, .. } => {
            &&& reqs =~= spec_present(pre.surface.surface, ob.buffer, spec_damage(changed, ol, ob.viewport.surface_size))
            &&& post.state.config_state matches ConfigState::Configured { buffer, clip_mask, cached_ui, last_frame }
                && buffer == ob && clip_mask == om && cached_ui && last_frame
        },
        ConfigState::Unconfigured { .. } => reqs.len() == 0 && post.state.config_state == pre.state.config_state,
    }
}

/// Handling `event`, with the toolkit's `outcome`, took `pre` to `post` and
/// made `reqs`.
pub open spec fn spec_moused(pre: Window, post: Window, event: MouseEvent, outcome: UiOutcome, reqs: Seq<Request>) -> bool {
    let (cursor, serial, shape) = pre.state.spec_pointer(event);
    &&& reqs =~= pre.spec_mouse_requests(event, outcome)
    &&& post.state.cursor == cursor
    &&& post.state.serial == serial
    &&& post.state.shape == if pre.spec_shape_changes(event, outcome) {
        outcome.interaction
    } else {
        shape
    }
    &&& post.state.frame_requested == (pre.state.frame_requested || (pre.spec_ui_updated(outcome) && outcome.redraw))
    &&& post.surface == pre.surface
    &&& post.tag == pre.tag
    &&& post.state.config_state == pre.state.config_state
    &&& post.state.frame_callback == pre.state.frame_callback
}

/// The damage rectangles of a frame, as `spec_damage` gives them.
pub fn frame_damage(changed: &Vec<FixedRect>, last_frame: bool, size: SurfaceSize) -> (r: Vec<Rect>)
    requires
        forall|i: int| 0 <= i < changed@.len() ==> (#[trigger] changed@[i]).wf(),
        size.width <= i32_max(),
        size.height <= i32_max(),
    ensures
        r@ == spec_damage(changed@, last_frame, size),
{
    let mut r: Vec<Rect> = Vec::new();
    if !last_frame {
        r.push(Rect { x: 0, y: 0, width: size.width as i32, height: size.height as i32 });
        return r;
    }
    let mut i: usize = 0;
    while i < changed.len()
        invariant
            i <= changed@.len(),
            forall|j: int| 0 <= j < changed@.len() ==> (#[trigger] changed@[j]).wf(),
            r@ == changed@.subrange(0, i as int).map_values(|f: FixedRect| Rect::spec_rounded_out(f)),
        decreases changed@.len() - i,
    {
        r.push(Rect::round_out(changed[i]));
        i += 1;
        proof {
            assert(changed@.subrange(0, i as int) == changed@.subrange(0, i - 1).push(changed@[i - 1]));
        }
    }
    proof {
        assert(changed@.subrange(0, i as int) == changed@);
    }
    r
}

impl Window {
    /// Presents a frame. `changed` is what the UI toolkit found changed
    /// against its previous frame. A configured window paints, attaches its
    /// buffer, damages `spec_damage` of it, commits and flushes, and keeps the
    /// frame as the next one's baseline; an unconfigured one does nothing.
    pub fn redraw(&mut self, changed: &Vec<FixedRect>) -> (r: Vec<Request>)
        requires
            old(self).wf(),
            forall|i: int| 0 <= i < changed@.len() ==> (#[trigger] changed@[i]).wf(),
        ensures
            final(self).wf(),
            spec_redrawn(*old(self), *final(self), changed@, r@),
    {
        let surface = self.surface.surface;
        let mut r: Vec<Request> = Vec::new();
        match &mut self.state.config_state {
            ConfigState::Configured { buffer, cached_ui, last_frame, .. } => {
                proof {
                    crate::buffer::lemma_fits_bounds(buffer.viewport.surface_size, buffer.viewport.buffer_scale);
                }
                let damage = frame_damage(changed, *last_frame, buffer.viewport.surface_size);
                *last_frame = true;
                *cached_ui = true;
                r.push(Request::Paint { surface, buffer: buffer.buffer });
                r.push(Request::Attach { surface, buffer: buffer.buffer });
                let ghost head = r@;
                let mut i: usize = 0;
                while i < damage.len()
                    invariant
                        i <= damage@.len(),
                        r@ == head + damage@.subrange(0, i as int).map_values(
                            |rect: Rect| Request::Damage { surface, rect },
                        ),
                    decreases damage@.len() - i,
                {
                    r.push(Request::Damage { surface, rect: damage[i] });
                    i += 1;
                    proof {
                        assert(damage@.subrange(0, i as int) == damage@.subrange(0, i - 1).push(damage@[i - 1]));
                    }
                }
                proof {
                    assert(damage@.subrange(0, i as int) == damage@);
                }
                r.push(Request::Commit { surface });
                r.push(Request::Flush);
            },
            ConfigState::Unconfigured { .. } => {},
        }
        r
    }

    /// Remembers the serial of the pointer's entry.
    pub fn enter(&mut self, serial: u32)
        requires
            old(self).wf(),
        ensures
            final(self).wf(),
            *final(self) == old(self).spec_with_serial(serial),
    {
        self.state.serial = Some(serial);
    }

    /// The toolkit updated its tree while the window is configured.
    pub open spec fn spec_ui_updated(&self, outcome: UiOutcome) -> bool {
        self.state.config_state is Configured && outcome.interaction is Some
    }

    /// A shape request follows the event: the toolkit updated, a serial is
    /// held, and the affordance differs from the one last shown.
    pub open spec fn spec_shape_changes(&self, event: MouseEvent, outcome: UiOutcome) -> bool {
        let (cursor, serial, shape) = self.state.spec_pointer(event);
        &&& self.spec_ui_updated(outcome)
        &&& serial is Some
        &&& shape != outcome.interaction
    }

    /// The requests that handling a pointer event makes.
    pub open spec fn spec_mouse_requests(&self, event: MouseEvent, outcome: UiOutcome) -> Seq<Request> {
        let (cursor, serial, shape) = self.state.spec_pointer(event);
        let frame = if self.spec_ui_updated(outcome) && outcome.redraw {
            self.spec_frame_requests()
        } else {
            seq![]
        };
        if self.spec_shape_changes(event, outcome) {
            frame.push(spec_shape_request(serial->0, outcome.interaction->0))
        } else {
            frame
        }
    }

    /// Handles a pointer event delivered to this window, and what the UI
    /// toolkit reported after it handled it. The position follows the
    /// pointer; a leave forgets the position, the serial and the shape. Where
    /// the toolkit updated a configured window, its wish for the next frame is
    /// passed on, and an affordance other than the one last shown is shown,
    /// once, under the entry's serial; without a serial nothing is shown.
    pub fn mouse(&mut self, event: MouseEvent, outcome: UiOutcome) -> (r: Vec<Request>)
        requires
            old(self).wf(),
        ensures
            final(self).wf(),
            spec_moused(*old(self), *final(self), event, outcome, r@),
    {
        match event {
            MouseEvent::Moved { x, y } => {
                self.state.cursor = Some((x, y));
            },
            MouseEvent::Left => {
                self.state.cursor = None;
                self.state.serial = None;
                self.state.shape = None;
            },
            _ => {},
        }
        let mut r: Vec<Request> = Vec::new();
        let configured = match &self.state.config_state {
            ConfigState::Configured { .. } => true,
            ConfigState::Unconfigured { .. } => false,
        };
        if configured {
            if let Some(interaction) = outcome.interaction {
                if outcome.redraw {
                    r = self.request_redraw();
                }
                if let Some(serial) = self.state.serial {
                    if self.state.shape != Some(interaction) {
                        let request = match cursor_shape(interaction) {
                            CursorShape::Shape(shape) => Request::SetCursorShape { serial, shape },
                            CursorShape::Hide => Request::HideCursor { serial },
                        };
                        r.push(request);
                        self.state.shape = Some(interaction);
                    }
                }
            }
        }
        r
    }

    /// Records the callback object of the frame notification asked for.
    pub fn frame_named(&mut self, callback: Object)
        requires
            old(self).wf(),
            old(self).state.frame_requested,
        ensures
            final(self).wf(),
            final(self).state.frame_callback == Some(callback),
            final(self).state.frame_requested,
            final(self).surface == old(self).surface,
            final(self).tag == old(self).tag,
            final(self).state.cursor == old(self).state.cursor,
            final(self).state.serial == old(self).state.serial,
            final(self).state.shape == old(self).state.shape,
            final(self).state.config_state == old(self).state.config_state,
    {
        self.state.frame_callback = Some(callback);
    }

    /// The window once its awaited frame notification fired.
    pub open spec fn spec_frame_fired(self) -> Window {
        Window { state: State { frame_requested: false, frame_callback: None, ..self.state }, ..self }
    }

    /// The window with the entry serial `serial` remembered.
    pub open spec fn spec_with_serial(self, serial: u32) -> Window {
        Window { state: State { serial: Some(serial), ..self.state }, ..self }
    }

    /// The awaited frame notification fired: the next request asks anew.
    pub fn frame_done(&mut self)
        requires
            old(self).wf(),
        ensures
            final(self).wf(),
            *final(self) == old(self).spec_frame_fired(),
    {
        self.state.frame_requested = false;
        self.state.frame_callback = None;
    }

    /// The role once a popup's negotiated size is `size`.
    pub open spec fn spec_resized_role(role: Role, size: SurfaceSize) -> Role {
        match role {
            Role::Popup { xdg_surface, popup, positioner, .. } => Role::Popup { xdg_surface, popup, positioner, size },
            Role::Layer { layer_surface } => Role::Layer { layer_surface },
        }
    }

    /// Records the size a popup's content now takes; a layer surface keeps
    /// its role.
    pub fn set_popup_size(&mut self, size: SurfaceSize)
        requires
            old(self).wf(),
        ensures
            final(self).wf(),
            final(self).surface.surface == old(self).surface.surface,
            final(self).surface.role == Window::spec_resized_role(old(self).surface.role, size),
            final(self).tag == old(self).tag,
            final(self).state == old(self).state,
    {
        match &mut self.surface.role {
            Role::Popup { size: s, .. } => {
                *s = size;
            },
            Role::Layer { .. } => {},
        }
    }

    /// Marks the cached UI tree outdated.
    pub fn outdate(&mut self)
        requires
            old(self).wf(),
        ensures
            final(self).wf(),
            final(self).state.config_state == old(self).state.config_state.spec_outdated(),
            final(self).surface == old(self).surface,
            final(self).tag == old(self).tag,
            final(self).state.cursor == old(self).state.cursor,
            final(self).state.serial == old(self).state.serial,
            final(self).state.shape == old(self).state.shape,
            final(self).state.frame_requested == old(self).state.frame_requested,
            final(self).state.frame_callback == old(self).state.frame_callback,
    {
        self.state.config_state.outdate();
    }
}

/// A configuration or a scale change of a window.
#[derive(Clone, Copy, Debug, PartialEq, Eq, Structural)]
pub enum WindowOp {
    Resize(SurfaceSize),
    Rescale(u32),
}

/// `op` took `pre` to `post` without failing, naming a new buffer `buffer`
/// if it made one, and made `reqs`.
pub open spec fn spec_op_done(pre: Window, post: Window, op: WindowOp, buffer: u64, reqs: Seq<Request>) -> bool {
    match op {
        WindowOp::Resize(size) => size_error(size, pre.state.config_state.spec_scale()) is None && spec_resized(
            pre,
            post,
            size,
            buffer,
            reqs,
        ),
        WindowOp::Rescale(scale) => rescale_error(pre, scale) is None && spec_rescaled(pre, post, scale, buffer, reqs),
    }
}

/// The size of the last configuration among `ops`, if any.
pub open spec fn last_size(ops: Seq<WindowOp>) -> Option<SurfaceSize>
    decreases ops.len(),
{
    if ops.len() == 0 {
        None
    } else {
        match ops.last() {
            WindowOp::Resize(size) => Some(size),
            WindowOp::Rescale(_) => last_size(ops.drop_last()),
        }
    }
}

/// The scale in force after `ops`, from `scale`: that of the last rescale.
pub open spec fn scale_after(scale: u32, ops: Seq<WindowOp>) -> u32
    decreases ops.len(),
{
    if ops.len() == 0 {
        scale
    } else {
        match ops.last() {
            WindowOp::Rescale(s) => s,
            WindowOp::Resize(_) => scale_after(scale, ops.drop_last()),
        }
    }
}

/// Whatever successful configurations and rescales come one after another,
/// the scale in force is that of the last rescale (or the first one), and
/// once a configuration came the window is configured at the last size
/// and that scale, with a buffer of exactly (width x scale) x (height x
/// scale) x 4 bytes.
pub proof fn lemma_op_sequence(steps: Seq<Window>, ops: Seq<WindowOp>, buffers: Seq<u64>, reqs: Seq<Seq<Request>>)
    requires
        steps.len() == ops.len() + 1,
        buffers.len() == ops.len(),
        reqs.len() == ops.len(),
        forall|k: int| 0 <= k < ops.len() ==> spec_op_done(#[trigger] steps[k], steps[k + 1], ops[k], buffers[k], reqs[k]),
    ensures
        steps.last().state.config_state.spec_scale() == scale_after(steps[0].state.config_state.spec_scale(), ops),
        last_size(ops) matches Some(size) ==> steps.last().state.config_state matches ConfigState::Configured {
            buffer,
            ..
        } && {
            let scale = scale_after(steps[0].state.config_state.spec_scale(), ops);
            &&& buffer.viewport.surface_size == size
            &&& buffer.viewport.buffer_scale == scale
            &&& buffer.spec_byte_len() == (size.width * scale) * (size.height * scale) * 4
        },
    decreases ops.len(),
{
    if ops.len() > 0 {
        let n = ops.len() - 1;
        lemma_op_sequence(steps.drop_last(), ops.drop_last(), buffers.drop_last(), reqs.drop_last());
        assert(spec_op_done(steps[n], steps[n + 1], ops[n], buffers[n], reqs[n]));
        assert(steps.drop_last().last() == steps[n]);
        assert(steps.drop_last()[0] == steps[0]);
    }
}

/// Rescaling twice in a row to the same scale: the second call succeeds,
/// keeps the configuration and makes no new buffer.
pub proof fn lemma_rescale_idempotent(
    w0: Window,
    w1: Window,
    w2: Window,
    scale: u32,
    b1: u64,
    b2: u64,
    r1: Seq<Request>,
    r2: Seq<Request>,
)
    requires
        w0.wf(),
        rescale_error(w0, scale) is None,
        spec_rescaled(w0, w1, scale, b1, r1),
        rescale_error(w1, scale) is None ==> spec_rescaled(w1, w2, scale, b2, r2),
    ensures
        rescale_error(w1, scale) is None,
        w2.state.config_state == w1.state.config_state,
        forall|k: int| 0 <= k < r2.len() ==> !(r2[k] is CreateBuffer),
{
    assert(r2.len() == 0 || r2 =~= seq![Request::SetBufferScale { surface: w1.surface.surface, scale }, Request::Flush]);
}

/// A frame with no change against the previous one damages nothing; the
/// first frame in a buffer damages the whole surface, which is the surface
/// bounds rounded out to whole pixels.
pub proof fn lemma_frame_damage(size: SurfaceSize)
    requires
        size.width * 256 <= i32_max(),
        size.height * 256 <= i32_max(),
    ensures
        spec_damage(Seq::<FixedRect>::empty(), true, size).len() == 0,
        forall|changed: Seq<FixedRect>| spec_damage(changed, false, size) == seq![full_bounds(size)],
        full_bounds(size) == Rect::spec_rounded_out(FixedRect {
            x: Fixed(0),
            y: Fixed(0),
            width: Fixed((size.width * 256) as i32),
            height: Fixed((size.height * 256) as i32),
        }),
{
    let w = size.width as int;
    let h = size.height as int;
    assert((w * 256 + 255) / 256 == w) by (nonlinear_arith)
        requires w >= 0;
    assert((h * 256 + 255) / 256 == h) by (nonlinear_arith)
        requires h >= 0;
}

} // verus!
