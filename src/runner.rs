use vstd::prelude::*;

use crate::geometry::{Fixed, FixedRect, SurfaceSize};
use crate::hyprland;
use crate::manager::{
    lemma_frame_owner_unique, lemma_owner_unique, lemma_replace_window, seq_owner, seq_registered, spec_teardown,
    RegistryError, WindowManager,
};
use crate::object::{Interface, Object};
use crate::panel::{spec_applied, AppEvent, Panel};
use crate::protocol::{
    Event, MouseEvent, Request, ANCHOR_LEFT, ANCHOR_RIGHT, ANCHOR_TOP, POSITIONER_BOTTOM, SLIDE_X, SLIDE_Y,
};
use crate::tray::Tray;
use crate::window::{
    ConfigState, rescale_error, size_error, spec_moused, spec_redrawn, spec_rescaled, spec_resized, Role, Surface, Tag, UiOutcome,
    Window,
};

verus! {

/// Only window `i` may differ between `pre` and `post`.
pub open spec fn only_changed(pre: Seq<Window>, post: Seq<Window>, i: int) -> bool {
    &&& post.len() == pre.len()
    &&& forall|j: int| 0 <= j < pre.len() && j != i ==> post[j] == pre[j]
}

/// `reqs` ends with a flush.
pub open spec fn then_flush(reqs: Seq<Request>) -> bool {
    reqs.len() >= 1 && reqs.last() == Request::Flush
}

/// Dispatching `event`, with the UI toolkit's `outcome` and `changed`
/// regions for the window it addressed, took the registry `pre` to `post`
/// and made `reqs`. An event for an identity that no window answers to is
/// dropped. A configuration or scale goes to the window that answers to its
/// object, with the next buffer name; one that cannot be honoured changes
/// nothing. An entry goes to the entered window, which then remembers the
/// serial and takes the focus. Other pointer events go to the focused window
/// only, and a leave clears the focus. A fired frame notification destroys
/// its callback and redraws the window that awaited it.
pub open spec fn spec_dispatched(
    pre: WindowManager,
    post: WindowManager,
    event: Event,
    outcome: UiOutcome,
    changed: Seq<FixedRect>,
    reqs: Seq<Request>,
) -> bool {
    match event {
        Event::Resize { object, size } => {
            &&& post.focused == pre.focused
            &&& if !pre.registered(object) {
                post.windows@ == pre.windows@ && reqs.len() == 0
            } else {
                let i = pre.owner(object);
                if size_error(size, pre.windows@[i].state.config_state.spec_scale()) is Some {
                    post.windows@ == pre.windows@ && reqs.len() == 0
                } else {
                    &&& only_changed(pre.windows@, post.windows@, i)
                    &&& spec_resized(pre.windows@[i], post.windows@[i], size, pre.next_buffer, reqs)
                }
            }
        },
        Event::Rescale { surface, factor } => {
            &&& post.focused == pre.focused
            &&& if !pre.registered(surface) {
                post.windows@ == pre.windows@ && reqs.len() == 0
            } else {
                let i = pre.owner(surface);
                if rescale_error(pre.windows@[i], factor) is Some {
                    post.windows@ == pre.windows@ && reqs.len() == 0
                } else {
                    &&& only_changed(pre.windows@, post.windows@, i)
                    &&& spec_rescaled(pre.windows@[i], post.windows@[i], factor, pre.next_buffer, reqs)
                }
            }
        },
        Event::Enter { surface, serial } => if !pre.registered(surface) {
            post.windows@ == pre.windows@ && reqs.len() == 0 && post.focused == pre.focused
        } else {
            let i = pre.owner(surface);
            &&& post.focused == Some(surface)
            &&& only_changed(pre.windows@, post.windows@, i)
            &&& then_flush(reqs)
            &&& exists|mid: Window|
                spec_moused(pre.windows@[i], mid, MouseEvent::Entered, outcome, reqs.drop_last())
                    && post.windows@[i] == mid.spec_with_serial(serial)
        },
        Event::Mouse(e) => {
            &&& post.focused == if e is Left {
                None
            } else {
                pre.focused
            }
            &&& if pre.focused is Some && pre.registered(pre.focused->0) {
                let i = pre.owner(pre.focused->0);
                &&& only_changed(pre.windows@, post.windows@, i)
                &&& then_flush(reqs)
                &&& spec_moused(pre.windows@[i], post.windows@[i], e, outcome, reqs.drop_last())
            } else {
                post.windows@ == pre.windows@ && reqs.len() == 0
            }
        },
        Event::CallbackDone(cb) => {
            &&& post.focused == pre.focused
            &&& if !pre.awaits(cb) {
                post.windows@ == pre.windows@ && reqs.len() == 0
            } else {
                let i = pre.frame_owner(cb);
                &&& only_changed(pre.windows@, post.windows@, i)
                &&& reqs.len() >= 1
                &&& reqs[0] == (Request::Destroy { object: cb, interface: Interface::Callback })
                &&& spec_redrawn(pre.windows@[i].spec_frame_fired(), post.windows@[i], changed, reqs.drop_first())
            }
        },
    }
}

/// Pointer motion and buttons reach the focused window only: every other
/// window is left as it was. A leave clears the focus, and the window that
/// had it forgets the pointer position, the entry serial and the shape.
pub proof fn lemma_routing(
    pre: &WindowManager,
    post: &WindowManager,
    e: MouseEvent,
    outcome: UiOutcome,
    changed: Seq<FixedRect>,
    reqs: Seq<Request>,
)
    requires
        pre.wf(),
        spec_dispatched(*pre, *post, Event::Mouse(e), outcome, changed, reqs),
    ensures
        post.windows@.len() == pre.windows@.len(),
        forall|j: int| 0 <= j < pre.windows@.len() && !pre.is_focused(j) ==> post.windows@[j] == pre.windows@[j],
        e is Left ==> post.focused is None,
        e is Left ==> forall|j: int| 0 <= j < pre.windows@.len() && pre.is_focused(j) ==> {
            &&& post.windows@[j].state.cursor is None
            &&& post.windows@[j].state.serial is None
            &&& post.windows@[j].state.shape is None
        },
{
    if pre.focused is Some && pre.registered(pre.focused->0) {
        let f = pre.focused->0;
        let i = pre.owner(f);
        assert forall|j: int| 0 <= j < pre.windows@.len() && pre.is_focused(j) implies j == i by {
            lemma_owner_unique(pre, i, j, f);
        }
    } else {
        assert forall|j: int| 0 <= j < pre.windows@.len() implies !pre.is_focused(j) by {
            if pre.is_focused(j) {
                assert(pre.windows@[j].surface.owns(pre.focused->0));
            }
        }
    }
}

/// The frame requests of the first `n` windows, in order.
pub open spec fn refresh_requests(ws: Seq<Window>, n: int) -> Seq<Request>
    decreases n,
{
    if n <= 0 {
        seq![]
    } else {
        refresh_requests(ws, n - 1) + ws[n - 1].spec_frame_requests()
    }
}

/// `post` is `pre` with its cached UI outdated and a frame asked for.
pub open spec fn spec_refreshed(pre: Window, post: Window) -> bool {
    &&& post.surface == pre.surface
    &&& post.tag == pre.tag
    &&& post.state.cursor == pre.state.cursor
    &&& post.state.serial == pre.state.serial
    &&& post.state.shape == pre.state.shape
    &&& post.state.config_state == pre.state.config_state.spec_outdated()
    &&& post.state.frame_requested
    &&& post.state.frame_callback == pre.state.frame_callback
}

/// What the bar's UI asks for.
#[derive(Clone, Debug)]
pub enum Message {
    Hello,
    Workspace { id: u8 },
    WindowInfo,
    Battery,
    TrayTooltip(Tray),
    TrayAction(Tray),
    CloseTooltip,
    BatteryStop,
}

/// Outside work that a message asks of the collaborators; its answer comes
/// back through `open_tooltip`.
#[derive(Clone, Debug)]
pub enum Action {
    /// Send a command to the window manager.
    Command(hyprland::Command),
    /// Ask the window manager about the active window and show the answer.
    WindowInfo(hyprland::Request),
    /// Show the battery's tooltip and poll the battery while it is open.
    Battery,
    /// Stop polling the battery.
    BatteryStop,
    /// Ask the tray item for its tooltip and show it.
    TrayTooltip(Tray),
    /// Activate the tray item.
    TrayAction(Tray),
}

/// `raw` with each tab widened to eight spaces.
pub open spec fn spec_expand_tabs(raw: Seq<u8>) -> Seq<u8>
    decreases raw.len(),
{
    if raw.len() == 0 {
        seq![]
    } else {
        spec_expand_tabs(raw.drop_last()) + if raw.last() == 9 {
            seq![32u8, 32, 32, 32, 32, 32, 32, 32]
        } else {
            seq![raw.last()]
        }
    }
}

/// The tooltip text of the window manager's answer about the active window.
pub fn window_info_text(raw: &[u8]) -> (r: Vec<u8>)
    ensures
        r@ == spec_expand_tabs(raw@),
{
    let mut r: Vec<u8> = Vec::new();
    let mut i: usize = 0;
    while i < raw.len()
        invariant
            i <= raw@.len(),
            r@ == spec_expand_tabs(raw@.subrange(0, i as int)),
        decreases raw@.len() - i,
    {
        if raw[i] == 9 {
            let mut k: usize = 0;
            while k < 8
                invariant
                    k <= 8,
                    r@ == spec_expand_tabs(raw@.subrange(0, i as int)) + Seq::new(k as nat, |_j: int| 32u8),
                decreases 8 - k,
            {
                r.push(32);
                k += 1;
                proof {
                    assert(r@ =~= spec_expand_tabs(raw@.subrange(0, i as int)) + Seq::new(k as nat, |_j: int| 32u8));
                }
            }
        } else {
            r.push(raw[i]);
        }
        proof {
            assert(raw@.subrange(0, i + 1).drop_last() =~= raw@.subrange(0, i as int));
            assert(r@ =~= spec_expand_tabs(raw@.subrange(0, i + 1)));
        }
        i += 1;
    }
    proof {
        assert(raw@.subrange(0, i as int) =~= raw@);
    }
    r
}

/// The windows once the tooltip is closed.
pub open spec fn closed_windows(pre: Runner) -> Seq<Window> {
    match pre.tooltip {
        Some(s) => match pre.window_manager.find_window(s) {
            Some(i) => pre.window_manager.windows@.remove(i),
            None => pre.window_manager.windows@,
        },
        None => pre.window_manager.windows@,
    }
}

/// The focus once the tooltip is closed: cleared if the tooltip had it.
pub open spec fn closed_focus(pre: Runner) -> Option<Object> {
    if pre.tooltip is Some && pre.window_manager.focused == pre.tooltip {
        None
    } else {
        pre.window_manager.focused
    }
}

/// The requests that close the tooltip: the teardown of its window.
pub open spec fn close_requests(pre: Runner) -> Seq<Request> {
    match pre.tooltip {
        Some(s) => match pre.window_manager.find_window(s) {
            Some(i) => spec_teardown(pre.window_manager.windows@[i]),
            None => seq![],
        },
        None => seq![],
    }
}

/// Closing the tooltip took `pre` to `post` and made `reqs`: its window, if
/// it has one, is torn down and removed, and no tooltip or tooltip text is
/// left. Nothing else changes.
pub open spec fn spec_tooltip_closed(pre: Runner, post: Runner, reqs: Seq<Request>) -> bool {
    &&& post.tooltip is None
    &&& post.panel.tooltip_text is None
    &&& post.panel.workspaces == pre.panel.workspaces
    &&& post.panel.tray_items == pre.panel.tray_items
    &&& post.panel.battery == pre.panel.battery
    &&& post.panel.clock == pre.panel.clock
    &&& post.window_manager.focused == closed_focus(pre)
    &&& post.window_manager.windows@ == closed_windows(pre)
    &&& reqs == close_requests(pre)
}

/// Where a tooltip pops up: below the bar at the pointer's whole x position,
/// negative positions at zero.
pub open spec fn anchor_of(x: Fixed) -> (u32, u32) {
    (if x.0 < 0 { 0u32 } else { (x.0 / 256) as u32 }, (BAR_HEIGHT + 1) as u32)
}

/// The size a popup role asks for.
pub open spec fn popup_size(role: Role) -> SurfaceSize {
    match role {
        Role::Popup { size, .. } => size,
        Role::Layer { .. } => SurfaceSize { width: 0, height: 0 },
    }
}

/// The anchor and parent role of a tooltip of `size` among `ws` with focus
/// `focus`: none for empty content, or without a pointer over a focused
/// window.
pub open spec fn tooltip_site(ws: Seq<Window>, focus: Option<Object>, size: SurfaceSize) -> Option<((u32, u32), Role)> {
    if size.width == 0 || size.height == 0 {
        None
    } else {
        match focus {
            Some(f) => if seq_registered(ws, f) {
                match ws[seq_owner(ws, f)].state.cursor {
                    Some((x, _y)) => Some((anchor_of(x), ws[seq_owner(ws, f)].surface.role)),
                    None => None,
                }
            } else {
                None
            },
            None => None,
        }
    }
}

/// The anchor of a site.
pub open spec fn site_anchor(site: Option<((u32, u32), Role)>) -> (u32, u32) {
    match site {
        Some((anchor, _parent)) => anchor,
        None => (0, 0),
    }
}

/// The parent role of a site.
pub open spec fn site_parent(site: Option<((u32, u32), Role)>) -> Role {
    match site {
        Some((_anchor, parent)) => parent,
        None => Role::Layer { layer_surface: Object { raw: 0 } },
    }
}

/// The requests that give up the objects of a popup that is not made.
pub open spec fn spec_discard(surface: Object, role: Role) -> Seq<Request> {
    match role {
        Role::Popup { xdg_surface, positioner, .. } => seq![
            Request::Destroy { object: positioner, interface: Interface::XdgPositioner },
            Request::Destroy { object: xdg_surface, interface: Interface::XdgSurface },
            Request::Destroy { object: surface, interface: Interface::Surface },
        ],
        Role::Layer { .. } => seq![],
    }
}

/// The requests that place and make a popup: the positioner takes the
/// popup's size, a one-pixel anchor rectangle at `anchor`, the bottom anchor
/// and gravity and sliding on both axes; the popup is made over its parent
/// (a layer surface gets it as a parentless popup); then the surface is
/// committed and the connection flushed.
pub open spec fn spec_popup_requests(surface: Object, role: Role, anchor: (u32, u32), parent: Role) -> Seq<Request> {
    match role {
        Role::Popup { xdg_surface, popup, positioner, size } => seq![
            Request::PositionerSize { positioner, width: size.width, height: size.height },
            Request::PositionerAnchorRect { positioner, x: anchor.0, y: anchor.1, width: 1, height: 1 },
            Request::PositionerAnchor { positioner, anchor: POSITIONER_BOTTOM },
            Request::PositionerGravity { positioner, gravity: POSITIONER_BOTTOM },
            Request::PositionerConstraint { positioner, adjustment: SLIDE_X | SLIDE_Y },
        ] + match parent {
            Role::Layer { layer_surface } => seq![
                Request::GetPopup { xdg_surface, popup, positioner, parent: None },
                Request::LayerGetPopup { layer_surface, popup },
            ],
            Role::Popup { xdg_surface: p, .. } => seq![
                Request::GetPopup { xdg_surface, popup, positioner, parent: Some(p) },
            ],
        } + seq![Request::Commit { surface }, Request::Flush],
        Role::Layer { .. } => seq![],
    }
}

fn discard(surface: Object, role: Role) -> (r: Vec<Request>)
    ensures
        r@ == spec_discard(surface, role),
{
    let mut r: Vec<Request> = Vec::new();
    match role {
        Role::Popup { xdg_surface, positioner, .. } => {
            r.push(Request::Destroy { object: positioner, interface: Interface::XdgPositioner });
            r.push(Request::Destroy { object: xdg_surface, interface: Interface::XdgSurface });
            r.push(Request::Destroy { object: surface, interface: Interface::Surface });
        },
        Role::Layer { .. } => {},
    }
    proof {
        assert(r@ =~= spec_discard(surface, role));
    }
    r
}

fn popup_requests(surface: Object, role: Role, anchor: (u32, u32), parent: Role) -> (r: Vec<Request>)
    ensures
        r@ == spec_popup_requests(surface, role, anchor, parent),
{
    let mut r: Vec<Request> = Vec::new();
    match role {
        Role::Popup { xdg_surface, popup, positioner, size } => {
            r.push(Request::PositionerSize { positioner, width: size.width, height: size.height });
            r.push(Request::PositionerAnchorRect { positioner, x: anchor.0, y: anchor.1, width: 1, height: 1 });
            r.push(Request::PositionerAnchor { positioner, anchor: POSITIONER_BOTTOM });
            r.push(Request::PositionerGravity { positioner, gravity: POSITIONER_BOTTOM });
            r.push(Request::PositionerConstraint { positioner, adjustment: SLIDE_X | SLIDE_Y });
            match parent {
                Role::Layer { layer_surface } => {
                    r.push(Request::GetPopup { xdg_surface, popup, positioner, parent: None });
                    r.push(Request::LayerGetPopup { layer_surface, popup });
                },
                Role::Popup { xdg_surface: p, .. } => {
                    r.push(Request::GetPopup { xdg_surface, popup, positioner, parent: Some(p) });
                },
            }
            r.push(Request::Commit { surface });
            r.push(Request::Flush);
        },
        Role::Layer { .. } => {},
    }
    proof {
        assert(r@ =~= spec_popup_requests(surface, role, anchor, parent));
    }
    r
}

/// The requests that set the bar up: full width at `BAR_HEIGHT`, anchored
/// to the top, left and right edges, reserving its height, then committed
/// and flushed.
pub open spec fn spec_bar_requests(surface: Object, layer_surface: Object) -> Seq<Request> {
    seq![
        Request::LayerSize { layer_surface, width: 0, height: BAR_HEIGHT },
        Request::LayerAnchor { layer_surface, anchor: ANCHOR_TOP | ANCHOR_LEFT | ANCHOR_RIGHT },
        Request::LayerExclusiveZone { layer_surface, zone: BAR_HEIGHT as i32 },
        Request::Commit { surface },
        Request::Flush,
    ]
}

/// Height of the bar in logical pixels.
pub const BAR_HEIGHT: u32 = 35;

/// `event` is the pointer leaving a configured window that has the focus.
pub open spec fn leave_closes(pre: Runner, event: Event) -> bool {
    let wm = pre.window_manager;
    &&& event == Event::Mouse(MouseEvent::Left)
    &&& wm.focused is Some
    &&& wm.registered(wm.focused->0)
    &&& wm.windows@[wm.owner(wm.focused->0)].state.config_state is Configured
}

/// The single task that applies compositor events and collaborators'
/// notifications to the windows and to what the bar shows.
pub struct Runner {
    pub window_manager: WindowManager,
    pub panel: Panel,
    /// Base surface of the open tooltip.
    pub tooltip: Option<Object>,
}

impl Runner {
    pub open spec fn wf(&self) -> bool {
        self.window_manager.wf() && self.panel.wf()
    }

    /// A dispatcher with no window yet, showing `panel`.
    pub fn new(panel: Panel) -> (r: Runner)
        requires
            panel.wf(),
        ensures
            r.wf(),
            r.window_manager.windows@.len() == 0,
            r.window_manager.focused is None,
            r.tooltip is None,
            r.panel == panel,
    {
        Runner { window_manager: WindowManager::new(), panel, tooltip: None }
    }

    /// Registers the bar, a layer surface, and gives the requests that set
    /// it up (`spec_bar_requests`). An identity that is registered already,
    /// or a layer surface that is the base surface itself, is refused and
    /// nothing changes.
    pub fn open_bar(&mut self, surface: Object, layer_surface: Object) -> (r: Result<Vec<Request>, RegistryError>)
        requires
            old(self).wf(),
        ensures
            final(self).wf(),
            final(self).panel == old(self).panel,
            final(self).tooltip == old(self).tooltip,
            final(self).window_manager.focused == old(self).window_manager.focused,
            (old(self).window_manager.registered(surface) || old(self).window_manager.registered(layer_surface)
                || surface == layer_surface) ==> r == Err::<Vec<Request>, RegistryError>(RegistryError::DuplicateKey)
                && final(self).window_manager.windows@ == old(self).window_manager.windows@,
            !(old(self).window_manager.registered(surface) || old(self).window_manager.registered(layer_surface)
                || surface == layer_surface) ==> {
                &&& r matches Ok(reqs) && reqs@ == spec_bar_requests(surface, layer_surface)
                &&& final(self).window_manager.windows@.drop_last() == old(self).window_manager.windows@
                &&& final(self).window_manager.windows@.len() == old(self).window_manager.windows@.len() + 1
                &&& ({
                    let w = final(self).window_manager.windows@.last();
                    &&& w.surface == (Surface { role: Role::Layer { layer_surface }, surface })
                    &&& w.tag == Tag::Bar
                    &&& w.state.config_state == (ConfigState::Unconfigured { scale_factor: 1 })
                    &&& w.state.cursor is None && w.state.serial is None && w.state.shape is None
                    &&& !w.state.frame_requested && w.state.frame_callback is None
                })
            },
    {
        match self.window_manager.create_window(surface, Role::Layer { layer_surface }, Tag::Bar) {
            Ok(_) => {
                let mut r: Vec<Request> = Vec::new();
                r.push(Request::LayerSize { layer_surface, width: 0, height: BAR_HEIGHT });
                r.push(Request::LayerAnchor { layer_surface, anchor: ANCHOR_TOP | ANCHOR_LEFT | ANCHOR_RIGHT });
                r.push(Request::LayerExclusiveZone { layer_surface, zone: BAR_HEIGHT as i32 });
                r.push(Request::Commit { surface });
                r.push(Request::Flush);
                proof {
                    assert(r@ =~= spec_bar_requests(surface, layer_surface));
                }
                Ok(r)
            },
            Err(e) => Err(e),
        }
    }

    /// Closes the open tooltip, if any; the requests tear it down.
    pub fn close_tooltip(&mut self) -> (r: Vec<Request>)
        requires
            old(self).wf(),
        ensures
            final(self).wf(),
            spec_tooltip_closed(*old(self), *final(self), r@),
    {
        self.panel.tooltip_text = None;
        match self.tooltip {
            Some(s) => {
                self.tooltip = None;
                let r = self.window_manager.close_window(s);
                proof {
                    if old(self).window_manager.find_window(s) is None {
                        assert(r@ =~= close_requests(*old(self)));
                    }
                }
                r
            },
            None => {
                let r: Vec<Request> = Vec::new();
                proof {
                    assert(r@ =~= close_requests(*old(self)));
                }
                r
            },
        }
    }

    /// Where a tooltip is anchored: below the bar, at the pointer's whole
    /// x position over the focused window (negative positions at zero); none
    /// without a pointer over a focused window.
    pub fn tooltip_anchor(&self) -> (r: Option<(u32, u32)>)
        requires
            self.wf(),
        ensures
            match self.window_manager.focused {
                Some(f) => if self.window_manager.registered(f) {
                    match self.window_manager.windows@[self.window_manager.owner(f)].state.cursor {
                        Some((x, _y)) => r == Some((
                            if x.0 < 0 { 0u32 } else { (x.0 / 256) as u32 },
                            (BAR_HEIGHT + 1) as u32,
                        )),
                        None => r is None,
                    }
                } else {
                    r is None
                },
                None => r is None,
            },
    {
        let i = match self.window_manager.focused_index() {
            Some(i) => i,
            None => {
                return None;
            },
        };
        proof {
            let f = self.window_manager.focused->0;
            crate::manager::lemma_owner_unique(&self.window_manager, i as int, self.window_manager.owner(f), f);
        }
        match self.window_manager.windows[i].state.cursor {
            Some((x, _y)) => {
                let px = x.as_i32();
                Some((if px < 0 { 0 } else { px as u32 }, BAR_HEIGHT + 1))
            },
            None => None,
        }
    }

    /// Where a tooltip whose content lays out to `size` is placed: at
    /// `tooltip_anchor`, with that size. None for empty content or without an
    /// anchor, and then no popup is made.
    pub fn tooltip_placement(&self, size: SurfaceSize) -> (r: Option<(SurfaceSize, (u32, u32))>)
        requires
            self.wf(),
        ensures
            (size.width == 0 || size.height == 0) ==> r is None,
            !(size.width == 0 || size.height == 0) ==> match r {
                Some((s, anchor)) => s == size && {
                    let f = self.window_manager.focused->0;
                    &&& self.window_manager.focused is Some
                    &&& self.window_manager.registered(f)
                    &&& self.window_manager.windows@[self.window_manager.owner(f)].state.cursor matches Some((x, _y))
                    &&& anchor == (if x.0 < 0 { 0u32 } else { (x.0 / 256) as u32 }, (BAR_HEIGHT + 1) as u32)
                },
                None => !(self.window_manager.focused matches Some(f) && self.window_manager.registered(f)
                    && self.window_manager.windows@[self.window_manager.owner(f)].state.cursor is Some),
            },
    {
        if size.width == 0 || size.height == 0 {
            return None;
        }
        match self.tooltip_anchor() {
            Some(anchor) => Some((size, anchor)),
            None => None,
        }
    }

    /// Opens a tooltip showing `text` in the popup `role` over `surface`,
    /// after closing the one that is open. The popup goes below the bar at the
    /// pointer over the focused window, with that window's role as parent
    /// (`tooltip_site`), and is registered under its base surface and its
    /// popup object. Empty content, no pointer over a focused window, or
    /// identities registered already: no tooltip, and the objects handed in
    /// are given up (`spec_discard`).
    pub fn open_tooltip(&mut self, text: Vec<u8>, surface: Object, role: Role) -> (r: Vec<Request>)
        requires
            old(self).wf(),
            role is Popup,
        ensures
            final(self).wf(),
            final(self).window_manager.focused == closed_focus(*old(self)),
            final(self).panel.workspaces == old(self).panel.workspaces,
            final(self).panel.tray_items == old(self).panel.tray_items,
            final(self).panel.battery == old(self).panel.battery,
            final(self).panel.clock == old(self).panel.clock,
            ({
                let ws = closed_windows(*old(self));
                let site = tooltip_site(ws, closed_focus(*old(self)), popup_size(role));
                let dup = seq_registered(ws, surface) || seq_registered(ws, role.spec_key()) || surface
                    == role.spec_key();
                if site is Some && !dup {
                    let fm = final(self).window_manager;
                    let w = fm.windows@.last();
                    &&& final(self).tooltip == Some(surface)
                    &&& final(self).panel.tooltip_text == Some(text)
                    &&& fm.windows@.len() == ws.len() + 1
                    &&& fm.windows@.drop_last() == ws
                    &&& w.surface == (Surface { role, surface })
                    &&& w.tag == Tag::Tooltip
                    &&& w.state.config_state == (ConfigState::Unconfigured { scale_factor: 1 })
                    &&& w.state.cursor is None && w.state.serial is None && w.state.shape is None
                    &&& !w.state.frame_requested && w.state.frame_callback is None
                    &&& fm.registered(surface) && fm.owner(surface) == ws.len()
                    &&& fm.registered(role.spec_key()) && fm.owner(role.spec_key()) == ws.len()
                    &&& r@ == close_requests(*old(self)) + spec_popup_requests(surface, role, site_anchor(site), site_parent(site))
                } else {
                    &&& final(self).tooltip is None
                    &&& final(self).panel.tooltip_text is None
                    &&& final(self).window_manager.windows@ == ws
                    &&& r@ == close_requests(*old(self)) + spec_discard(surface, role)
                }
            }),
    {
        let mut r = self.close_tooltip();
        let ghost mid = self.window_manager;
        let ghost closed = r@;
        let size = match role {
            Role::Popup { size, .. } => size,
            Role::Layer { .. } => SurfaceSize { width: 0, height: 0 },
        };
        let mut site: Option<((u32, u32), Role)> = None;
        if size.width != 0 && size.height != 0 {
            match self.window_manager.focused_index() {
                Some(i) => {
                    proof {
                        let f = mid.focused->0;
                        lemma_owner_unique(&mid, i as int, mid.owner(f), f);
                    }
                    match self.window_manager.windows[i].state.cursor {
                        Some((x, _y)) => {
                            let px = x.as_i32();
                            site = Some(
                                ((if px < 0 { 0 } else { px as u32 }, BAR_HEIGHT + 1), self.window_manager.windows[i].surface.role),
                            );
                        },
                        None => {},
                    }
                },
                None => {},
            }
        }
        proof {
            assert(site == tooltip_site(mid.windows@, mid.focused, size));
        }
        let (anchor, parent) = match site {
            Some(s) => s,
            None => {
                let mut d = discard(surface, role);
                r.append(&mut d);
                return r;
            },
        };
        match self.window_manager.create_window(surface, role, Tag::Tooltip) {
            Ok(i) => {
                self.tooltip = Some(surface);
                self.panel.tooltip_text = Some(text);
                let mut p = popup_requests(surface, role, anchor, parent);
                r.append(&mut p);
                proof {
                    let fm = self.window_manager;
                    assert(fm.windows@.last() == fm.windows@[i as int]);
                    assert(fm.windows@[i as int].surface.owns(surface));
                    assert(fm.windows@[i as int].surface.owns(role.spec_key()));
                    lemma_owner_unique(&fm, i as int, fm.owner(surface), surface);
                    lemma_owner_unique(&fm, i as int, fm.owner(role.spec_key()), role.spec_key());
                }
                r
            },
            Err(_) => {
                let mut d = discard(surface, role);
                r.append(&mut d);
                r
            },
        }
    }

    /// Takes the size that the open tooltip's content now lays out to. The
    /// popup remembers it; where it grew on either side, the tooltip is
    /// configured anew at that size (see `Window::resize`).
    pub fn relayout_tooltip(&mut self, size: SurfaceSize) -> (r: Vec<Request>)
        requires
            old(self).wf(),
        ensures
            final(self).wf(),
            final(self).panel == old(self).panel,
            final(self).tooltip == old(self).tooltip,
            final(self).window_manager.focused == old(self).window_manager.focused,
            final(self).window_manager.windows@.len() == old(self).window_manager.windows@.len(),
            match old(self).tooltip {
                Some(s) => match old(self).window_manager.find_window(s) {
                    Some(i) => {
                        let pre = old(self).window_manager.windows@[i];
                        let post = final(self).window_manager.windows@[i];
                        &&& only_changed(old(self).window_manager.windows@, final(self).window_manager.windows@, i)
                        &&& post.surface.role == Window::spec_resized_role(pre.surface.role, size)
                        &&& match pre.surface.role {
                            Role::Popup { size: old_size, .. } => if (size.width > old_size.width || size.height
                                > old_size.height) && size_error(size, pre.state.config_state.spec_scale()) is None {
                                spec_resized(
                                    Window { surface: post.surface, ..pre },
                                    post,
                                    size,
                                    old(self).window_manager.next_buffer,
                                    r@,
                                )
                            } else {
                                r@.len() == 0 && post.state == pre.state
                            },
                            Role::Layer { .. } => r@.len() == 0 && post.state == pre.state,
                        }
                    },
                    None => r@.len() == 0 && final(self).window_manager.windows@ == old(self).window_manager.windows@,
                },
                None => r@.len() == 0 && final(self).window_manager.windows@ == old(self).window_manager.windows@,
            },
    {
        let s = match self.tooltip {
            Some(s) => s,
            None => {
                return Vec::new();
            },
        };
        let i = match self.window_manager.find_index(s) {
            Some(i) => i,
            None => {
                proof {
                    if old(self).window_manager.find_window(s) is Some {
                        let k = old(self).window_manager.find_window(s)->0;
                        assert(old(self).window_manager.windows@[k].surface.owns(s));
                    }
                }
                return Vec::new();
            },
        };
        let ghost pre_m = self.window_manager;
        proof {
            let k = pre_m.find_window(s);
            if k is None {
                assert(!(exists|j: int| 0 <= j < pre_m.windows@.len() && (#[trigger] pre_m.windows@[j]).surface.surface == s));
            }
        }
        let grew = match self.window_manager.windows[i].surface.role {
            Role::Popup { size: old_size, .. } => size.width > old_size.width || size.height > old_size.height,
            Role::Layer { .. } => false,
        };
        let base = self.window_manager.windows[i].surface.surface;
        if base != s {
            proof {
                assert(pre_m.windows@[i as int].surface.owns(s));
            }
            return Vec::new();
        }
        self.window_manager.windows[i].set_popup_size(size);
        proof {
            lemma_replace_window(&pre_m, &self.window_manager, i as int);
        }
        let ghost mid = self.window_manager;
        let mut r: Vec<Request> = Vec::new();
        if grew {
            let buffer = self.window_manager.fresh_buffer();
            let res = self.window_manager.windows[i].resize(size, buffer);
            proof {
                lemma_replace_window(&mid, &self.window_manager, i as int);
            }
            match res {
                Ok(reqs) => {
                    r = reqs;
                },
                Err(_) => {},
            }
        }
        proof {
            let k = pre_m.find_window(s)->0;
            assert(pre_m.windows@[k].surface.surface == s);
            if k != i as int {
                crate::manager::lemma_owner_unique(&pre_m, i as int, k, s);
            }
        }
        r
    }

    /// Decides what a message of the bar's UI does: the requests it makes now
    /// and the outside work it asks for.
    pub fn update(&mut self, message: Message) -> (r: (Vec<Request>, Option<Action>))
        requires
            old(self).wf(),
        ensures
            final(self).wf(),
            match message {
                Message::CloseTooltip => r.1 is None && spec_tooltip_closed(*old(self), *final(self), r.0@),
                Message::BatteryStop => (r.1 matches Some(Action::BatteryStop)) && spec_tooltip_closed(
                    *old(self),
                    *final(self),
                    r.0@,
                ),
                Message::Hello => r.0@.len() == 0 && r.1 is None && final(self).window_manager == old(self).window_manager,
                Message::Workspace { id } => r.0@.len() == 0 && (r.1 matches Some(Action::Command(c)) && c
                    == hyprland::Command::Workspace(id)) && final(self).window_manager == old(self).window_manager,
                Message::WindowInfo => r.0@.len() == 0 && (r.1 matches Some(Action::WindowInfo(q)) && q
                    == hyprland::Request::ActiveWindow) && final(self).window_manager == old(self).window_manager,
                Message::Battery => r.0@.len() == 0 && (r.1 matches Some(Action::Battery))
                    && final(self).window_manager == old(self).window_manager,
                Message::TrayTooltip(s) => r.0@.len() == 0 && (r.1 matches Some(Action::TrayTooltip(t)) && t@ == s@)
                    && final(self).window_manager == old(self).window_manager,
                Message::TrayAction(s) => r.0@.len() == 0 && (r.1 matches Some(Action::TrayAction(t)) && t@ == s@)
                    && final(self).window_manager == old(self).window_manager,
            },
    {
        match message {
            Message::Hello => (Vec::new(), None),
            Message::Workspace { id } => (Vec::new(), Some(Action::Command(hyprland::Command::Workspace(id)))),
            Message::WindowInfo => (Vec::new(), Some(Action::WindowInfo(hyprland::Request::ActiveWindow))),
            Message::Battery => (Vec::new(), Some(Action::Battery)),
            Message::TrayTooltip(s) => (Vec::new(), Some(Action::TrayTooltip(s))),
            Message::TrayAction(s) => (Vec::new(), Some(Action::TrayAction(s))),
            Message::CloseTooltip => (self.close_tooltip(), None),
            Message::BatteryStop => (self.close_tooltip(), Some(Action::BatteryStop)),
        }
    }

    /// Applies a collaborator's notification to what the bar shows, then
    /// outdates every window's UI and asks each for a frame, with one flush
    /// after all of them.
    pub fn dispatch_app_event(&mut self, event: AppEvent) -> (r: Vec<Request>)
        requires
            old(self).wf(),
        ensures
            final(self).wf(),
            spec_applied(old(self).panel, final(self).panel, event),
            final(self).window_manager.windows@.len() == old(self).window_manager.windows@.len(),
            forall|i: int| 0 <= i < old(self).window_manager.windows@.len() ==> spec_refreshed(
                old(self).window_manager.windows@[i],
                #[trigger] final(self).window_manager.windows@[i],
            ),
            final(self).window_manager.focused == old(self).window_manager.focused,
            final(self).tooltip == old(self).tooltip,
            r@ == refresh_requests(old(self).window_manager.windows@, old(self).window_manager.windows@.len() as int)
                + seq![Request::Flush],
    {
        self.panel.apply(event);
        let ghost pre = self.window_manager;
        let mut r: Vec<Request> = Vec::new();
        let n = self.window_manager.windows.len();
        let mut i: usize = 0;
        while i < n
            invariant
                n == pre.windows@.len(),
                i <= n,
                self.window_manager.windows@.len() == n,
                self.window_manager.focused == pre.focused,
                pre.wf(),
                pre == old(self).window_manager,
                self.panel.wf(),
                spec_applied(old(self).panel, self.panel, event),
                self.tooltip == old(self).tooltip,
                forall|j: int| 0 <= j < i ==> spec_refreshed(pre.windows@[j], #[trigger] self.window_manager.windows@[j]),
                forall|j: int| i <= j < n ==> #[trigger] self.window_manager.windows@[j] == pre.windows@[j],
                r@ == refresh_requests(pre.windows@, i as int),
            decreases n - i,
        {
            let ghost before = self.window_manager.windows@;
            proof {
                assert(self.window_manager.windows@[i as int] == pre.windows@[i as int]);
            }
            self.window_manager.windows[i].outdate();
            let mut frame = self.window_manager.windows[i].request_redraw();
            let ghost asked = frame@;
            r.append(&mut frame);
            proof {
                assert(asked == pre.windows@[i as int].spec_frame_requests());
                assert(r@ =~= refresh_requests(pre.windows@, i + 1));
                assert forall|j: int| i + 1 <= j < n implies #[trigger] self.window_manager.windows@[j] == pre.windows@[j] by {
                    assert(self.window_manager.windows@[j] == before[j]);
                }
                assert forall|j: int| 0 <= j < i implies spec_refreshed(pre.windows@[j], #[trigger] self.window_manager.windows@[j]) by {
                    assert(self.window_manager.windows@[j] == before[j]);
                }
            }
            i += 1;
        }
        r.push(Request::Flush);
        proof {
            assert forall|a: int| 0 <= a < n implies (#[trigger] self.window_manager.windows@[a]).wf() by {
                assert(spec_refreshed(pre.windows@[a], self.window_manager.windows@[a]));
                assert(pre.windows@[a].wf());
            }
            assert forall|a: int, b: int|
                0 <= a < n && 0 <= b < n && a != b implies {
                &&& !(#[trigger] self.window_manager.windows@[b]).surface.owns((#[trigger] self.window_manager.windows@[a]).surface.surface)
                &&& !self.window_manager.windows@[b].surface.owns(self.window_manager.windows@[a].surface.role.spec_key())
                &&& (self.window_manager.windows@[a].state.frame_callback is Some ==> self.window_manager.windows@[b].state.frame_callback
                    != self.window_manager.windows@[a].state.frame_callback)
            } by {
                assert(spec_refreshed(pre.windows@[a], self.window_manager.windows@[a]));
                assert(spec_refreshed(pre.windows@[b], self.window_manager.windows@[b]));
                assert(pre.wf());
                assert(!pre.windows@[b].surface.owns(pre.windows@[a].surface.surface));
            }
            assert(r@ =~= refresh_requests(pre.windows@, n as int) + seq![Request::Flush]);
        }
        r
    }

    /// The window whose UI toolkit is to handle `event` before it is
    /// dispatched: the one it addresses, the focused one for pointer events.
    pub fn target(&self, event: Event) -> (r: Option<usize>)
        requires
            self.wf(),
        ensures
            match event {
                Event::Resize { object, .. } => (r is None <==> !self.window_manager.registered(object)) && (
                r matches Some(i) ==> i == self.window_manager.owner(object)),
                Event::Rescale { surface, .. } => (r is None <==> !self.window_manager.registered(surface))
                    && (r matches Some(i) ==> i == self.window_manager.owner(surface)),
                Event::Enter { surface, .. } => (r is None <==> !self.window_manager.registered(surface))
                    && (r matches Some(i) ==> i == self.window_manager.owner(surface)),
                Event::Mouse(_) => (r is None <==> !(self.window_manager.focused matches Some(f)
                    && self.window_manager.registered(f))) && (r matches Some(i) ==> i
                    == self.window_manager.owner(self.window_manager.focused->0)),
                Event::CallbackDone(cb) => (r is None <==> !self.window_manager.awaits(cb)) && (r matches Some(
                i) ==> i == self.window_manager.frame_owner(cb)),
            },
    {
        let wm = &self.window_manager;
        let r = match event {
            Event::Resize { object, .. } => wm.find_index(object),
            Event::Rescale { surface, .. } => wm.find_index(surface),
            Event::Enter { surface, .. } => wm.find_index(surface),
            Event::Mouse(_) => wm.focused_index(),
            Event::CallbackDone(cb) => wm.frame_index(cb),
        };
        proof {
            if let Some(i) = r {
                match event {
                    Event::Resize { object, .. } => lemma_owner_unique(wm, i as int, wm.owner(object), object),
                    Event::Rescale { surface, .. } => lemma_owner_unique(wm, i as int, wm.owner(surface), surface),
                    Event::Enter { surface, .. } => lemma_owner_unique(wm, i as int, wm.owner(surface), surface),
                    Event::Mouse(_) => {
                        let f = wm.focused->0;
                        lemma_owner_unique(wm, i as int, wm.owner(f), f);
                    },
                    Event::CallbackDone(cb) => lemma_frame_owner_unique(wm, i as int, wm.frame_owner(cb), cb),
                }
            }
        }
        r
    }

    /// Applies one compositor event. The pointer leaving a configured
    /// focused window also closes the tooltip, with one more flush: the
    /// requests are those of the event (`spec_dispatched`), then those of
    /// the closing (`spec_tooltip_closed`), then the flush. `outcome` and
    /// `changed` are what the UI toolkit reported for the window that
    /// `target` named.
    pub fn dispatch_wayland_event(&mut self, event: Event, outcome: UiOutcome, changed: &Vec<FixedRect>) -> (r:
        Vec<Request>)
        requires
            old(self).wf(),
            forall|i: int| 0 <= i < changed@.len() ==> (#[trigger] changed@[i]).wf(),
        ensures
            final(self).wf(),
            !leave_closes(*old(self), event) ==> {
                &&& spec_dispatched(old(self).window_manager, final(self).window_manager, event, outcome, changed@, r@)
                &&& final(self).panel == old(self).panel
                &&& final(self).tooltip == old(self).tooltip
            },
            leave_closes(*old(self), event) ==> exists|mid: Runner, k: int|
                0 <= k < r@.len() && mid.panel == old(self).panel && mid.tooltip == old(self).tooltip
                    && spec_dispatched(old(self).window_manager, mid.window_manager, event, outcome, changed@, r@.subrange(0, k))
                    && spec_tooltip_closed(mid, *final(self), r@.subrange(k, r@.len() - 1))
                    && r@.last() == Request::Flush,
            event == Event::Mouse(MouseEvent::Left) ==> final(self).window_manager.focused is None,
    {
        let closes = self.leave_closes(event);
        let mut r = self.route(event, outcome, changed);
        if closes {
            let ghost mid = *self;
            let ghost routed = r@;
            let ghost k = r@.len() as int;
            let mut c = self.close_tooltip();
            let ghost closing = c@;
            r.append(&mut c);
            r.push(Request::Flush);
            proof {
                assert(r@.subrange(0, k) =~= routed);
                assert(r@.subrange(k, r@.len() - 1) =~= closing);
                assert(0 <= k < r@.len() && mid.panel == old(self).panel && mid.tooltip == old(self).tooltip
                    && spec_dispatched(old(self).window_manager, mid.window_manager, event, outcome, changed@, r@.subrange(0, k))
                    && spec_tooltip_closed(mid, *self, r@.subrange(k, r@.len() - 1))
                    && r@.last() == Request::Flush);
            }
        }
        r
    }

    /// Whether `event` is a leave of a configured focused window.
    pub fn leave_closes(&self, event: Event) -> (r: bool)
        requires
            self.wf(),
        ensures
            r == leave_closes(*self, event),
    {
        match event {
            Event::Mouse(MouseEvent::Left) => match self.window_manager.focused_index() {
                Some(i) => {
                    proof {
                        let f = self.window_manager.focused->0;
                        lemma_owner_unique(&self.window_manager, i as int, self.window_manager.owner(f), f);
                    }
                    match &self.window_manager.windows[i].state.config_state {
                        ConfigState::Configured { .. } => true,
                        ConfigState::Unconfigured { .. } => false,
                    }
                },
                None => false,
            },
            _ => false,
        }
    }

    /// Routes one compositor event to the windows; see `spec_dispatched`.
    fn route(&mut self, event: Event, outcome: UiOutcome, changed: &Vec<FixedRect>) -> (r: Vec<Request>)
        requires
            old(self).wf(),
            forall|i: int| 0 <= i < changed@.len() ==> (#[trigger] changed@[i]).wf(),
        ensures
            final(self).wf(),
            spec_dispatched(old(self).window_manager, final(self).window_manager, event, outcome, changed@, r@),
            final(self).panel == old(self).panel,
            final(self).tooltip == old(self).tooltip,
    {
        let target = self.target(event);
        let ghost pre = self.window_manager;
        match event {
            Event::Resize { object, size } => {
                let i = match target {
                    Some(i) => i,
                    None => {
                        return Vec::new();
                    },
                };
                let buffer = self.window_manager.fresh_buffer();
                let res = self.window_manager.windows[i].resize(size, buffer);
                proof {
                    lemma_replace_window(&pre, &self.window_manager, i as int);
                    if res is Err {
                        assert(self.window_manager.windows@ =~= pre.windows@);
                    }
                }
                match res {
                    Ok(r) => r,
                    Err(_) => Vec::new(),
                }
            },
            Event::Rescale { surface, factor } => {
                let i = match target {
                    Some(i) => i,
                    None => {
                        return Vec::new();
                    },
                };
                let buffer = self.window_manager.fresh_buffer();
                let res = self.window_manager.windows[i].rescale(factor, buffer);
                proof {
                    lemma_replace_window(&pre, &self.window_manager, i as int);
                    if res is Err {
                        assert(self.window_manager.windows@ =~= pre.windows@);
                    }
                }
                match res {
                    Ok(r) => r,
                    Err(_) => Vec::new(),
                }
            },
            Event::Enter { surface, serial } => {
                let i = match target {
                    Some(i) => i,
                    None => {
                        return Vec::new();
                    },
                };
                let mut r = self.window_manager.windows[i].mouse(MouseEvent::Entered, outcome);
                let ghost mid = self.window_manager.windows@[i as int];
                self.window_manager.windows[i].enter(serial);
                self.window_manager.focused = Some(surface);
                r.push(Request::Flush);
                proof {
                    lemma_replace_window(&pre, &self.window_manager, i as int);
                    assert(r@.drop_last() == old(self).window_manager.windows@[i as int].spec_mouse_requests(
                        MouseEvent::Entered,
                        outcome,
                    ));
                    assert(spec_moused(pre.windows@[i as int], mid, MouseEvent::Entered, outcome, r@.drop_last()));
                }
                r
            },
            Event::Mouse(e) => {
                let left = match e {
                    MouseEvent::Left => true,
                    _ => false,
                };
                let i = match target {
                    Some(i) => i,
                    None => {
                        if left {
                            self.window_manager.focused = None;
                        }
                        return Vec::new();
                    },
                };
                let mut r = self.window_manager.windows[i].mouse(e, outcome);
                if left {
                    self.window_manager.focused = None;
                }
                r.push(Request::Flush);
                proof {
                    lemma_replace_window(&pre, &self.window_manager, i as int);
                    assert(r@.drop_last() =~= pre.windows@[i as int].spec_mouse_requests(e, outcome));
                }
                r
            },
            Event::CallbackDone(cb) => {
                let i = match target {
                    Some(i) => i,
                    None => {
                        return Vec::new();
                    },
                };
                self.window_manager.windows[i].frame_done();
                proof {
                    lemma_replace_window(&pre, &self.window_manager, i as int);
                }
                let ghost mid = self.window_manager;
                let mut r: Vec<Request> = Vec::new();
                r.push(Request::Destroy { object: cb, interface: Interface::Callback });
                let mut frame = self.window_manager.windows[i].redraw(changed);
                let ghost drawn = frame@;
                r.append(&mut frame);
                proof {
                    lemma_replace_window(&mid, &self.window_manager, i as int);
                    assert(r@.drop_first() =~= drawn);
                }
                r
            },
        }
    }
}

} // verus!
