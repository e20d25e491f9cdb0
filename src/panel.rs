use vstd::prelude::*;
use vstd::slice::slice_to_vec;

use crate::battery::{spec_icon_name, BatteryStatus, Info, Status};
use crate::clock::Clock;
use crate::hyprland;
use crate::text::push_bytes;
use crate::tray::{Tray, TrayEvent};

verus! {

/// Number of workspaces the panel shows.
pub const WORKSPACE_MAX: usize = 10;

/// Sixteen flags, one per workspace.
#[derive(Clone, Copy, Debug, PartialEq, Eq, Structural)]
pub struct BitSet(pub u16);

/// Flag `i` of `v`.
pub open spec fn bit(v: u16, i: u16) -> bool {
    (v >> i) & 1 == 1
}

proof fn lemma_set_bit(v: u16, k: u16, i: u16)
    by (bit_vector)
    requires
        k < 16,
        i < 16,
    ensures
        (((v | (1u16 << k)) >> i) & 1 == 1) == (i == k || (v >> i) & 1 == 1),
{
}

proof fn lemma_unset_bit(v: u16, k: u16, i: u16)
    by (bit_vector)
    requires
        k < 16,
        i < 16,
    ensures
        (((v & !(1u16 << k)) >> i) & 1 == 1) == (i != k && (v >> i) & 1 == 1),
{
}

impl BitSet {
    pub open spec fn has(self, i: u16) -> bool {
        bit(self.0, i)
    }

    /// No flag set.
    pub fn new() -> (r: BitSet)
        ensures
            forall|i: u16| i < 16 ==> !r.has(i),
    {
        proof {
            assert(forall|i: u16| i < 16 ==> (0u16 >> i) & 1 != 1) by (bit_vector);
        }
        BitSet(0)
    }

    pub fn set(&mut self, idx: usize)
        requires
            idx < 16,
        ensures
            forall|i: u16| i < 16 ==> final(self).has(i) == (i == idx || old(self).has(i)),
    {
        let v = self.0;
        let k = idx as u16;
        let n = v | (1u16 << k);
        proof {
            assert forall|i: u16| i < 16 implies bit(n, i) == (i == k || bit(v, i)) by {
                lemma_set_bit(v, k, i);
            }
        }
        self.0 = n;
    }

    pub fn unset(&mut self, idx: usize)
        requires
            idx < 16,
        ensures
            forall|i: u16| i < 16 ==> final(self).has(i) == (i != idx && old(self).has(i)),
    {
        let v = self.0;
        let k = idx as u16;
        let n = v & !(1u16 << k);
        proof {
            assert forall|i: u16| i < 16 implies bit(n, i) == (i != k && bit(v, i)) by {
                lemma_unset_bit(v, k, i);
            }
        }
        self.0 = n;
    }

    pub fn get(&self, idx: usize) -> (r: bool)
        requires
            idx < 16,
        ensures
            r == self.has(idx as u16),
    {
        let v = self.0;
        let k = idx as u16;
        proof {
            assert(k < 16 ==> ((v & (1u16 << k)) != 0) == ((v >> k) & 1 == 1)) by (bit_vector);
        }
        (v & (1u16 << k)) != 0
    }
}

/// Byte `j` of `s` does not continue a UTF-8 sequence.
pub open spec fn is_boundary(s: Seq<u8>, j: int) -> bool {
    j <= 0 || j >= s.len() || !(0x80 <= s[j] < 0xc0)
}

/// The largest boundary of `s` at or before `k`.
pub open spec fn floor_boundary(s: Seq<u8>, k: int) -> int
    decreases k,
{
    if k <= 0 || is_boundary(s, k) {
        k
    } else {
        floor_boundary(s, k - 1)
    }
}

/// `s` when shorter than `len`, else cut at a character boundary so that,
/// with `ellipsis` after it, it takes at most `len` bytes.
pub open spec fn spec_truncate(s: Seq<u8>, len: nat, ellipsis: Seq<u8>) -> Seq<u8> {
    if s.len() < len {
        s
    } else {
        s.subrange(0, floor_boundary(s, len - ellipsis.len())) + ellipsis
    }
}

/// Shortens a label as `spec_truncate` says.
pub fn truncate(s: &[u8], len: usize, ellipsis: &[u8]) -> (r: Vec<u8>)
    requires
        ellipsis@.len() <= len,
    ensures
        r@ == spec_truncate(s@, len as nat, ellipsis@),
{
    if s.len() < len {
        return slice_to_vec(s);
    }
    let mut cut: usize = len - ellipsis.len();
    while cut > 0 && cut < s.len() && s[cut] >= 0x80 && s[cut] < 0xc0
        invariant
            cut <= len - ellipsis@.len(),
            floor_boundary(s@, cut as int) == floor_boundary(s@, (len - ellipsis@.len()) as int),
        decreases cut,
    {
        cut -= 1;
    }
    let mut r: Vec<u8> = Vec::new();
    let mut i: usize = 0;
    while i < cut
        invariant
            i <= cut,
            cut <= s@.len(),
            r@ == s@.subrange(0, i as int),
        decreases cut - i,
    {
        r.push(s[i]);
        i += 1;
        proof {
            assert(r@ =~= s@.subrange(0, i as int));
        }
    }
    push_bytes(&mut r, ellipsis);
    r
}

/// `…`
pub open spec fn ellipsis() -> Seq<u8> {
    seq![0xe2u8, 0x80, 0xa6]
}

/// A tray item and the name of its icon.
#[derive(Clone, Debug)]
pub struct TrayItem {
    pub service: Tray,
    pub icon_name: Vec<u8>,
}

/// A change of the battery: line power came or went, or the capacity or
/// status changed.
#[derive(Clone, Copy, Debug, PartialEq, Eq, Structural)]
pub enum BatteryEvent {
    PowerOnline,
    PowerOffline,
    Capacity(u8),
    Status(Status),
}

/// A notification of an outside collaborator.
#[derive(Clone, Debug)]
pub enum AppEvent {
    Hyprland(hyprland::Event),
    Battery(BatteryEvent),
    Clock(Clock),
    BatteryInfo(Info),
    Tray(TrayEvent),
}

/// What the bar shows, kept up to date by the collaborators' notifications.
pub struct Panel {
    pub workspaces: BitSet,
    pub workspace_focused: usize,
    pub window_class: Vec<u8>,
    pub window_title: Vec<u8>,
    pub tray_items: Vec<TrayItem>,
    pub battery: Option<BatteryStatus>,
    /// Icon name of the battery, kept with `battery`.
    pub battery_icon: Vec<u8>,
    pub clock: Option<Clock>,
    /// Text of the open tooltip, if one is open.
    pub tooltip_text: Option<Vec<u8>>,
}

/// The tray as (service, icon name) pairs.
pub open spec fn tray_view(items: Seq<TrayItem>) -> Seq<(Seq<u8>, Seq<u8>)> {
    items.map_values(|it: TrayItem| (it.service.spec_full(), it.icon_name@))
}

/// Position of `key` among the pairs, if there.
pub open spec fn tray_index(v: Seq<(Seq<u8>, Seq<u8>)>, key: Seq<u8>) -> Option<int> {
    if exists|i: int| 0 <= i < v.len() && (#[trigger] v[i]).0 == key {
        Some(choose|i: int| 0 <= i < v.len() && (#[trigger] v[i]).0 == key)
    } else {
        None
    }
}

/// The battery icon of a status.
pub open spec fn battery_icon_of(b: BatteryStatus) -> Seq<u8> {
    spec_icon_name(b.spec_charged(), b.capacity as nat, b.spec_charging())
}

impl Panel {
    pub open spec fn wf(&self) -> bool {
        &&& forall|i: int, j: int|
            0 <= i < self.tray_items@.len() && 0 <= j < self.tray_items@.len() && i != j
                ==> (#[trigger] self.tray_items@[i]).service.spec_full() != (#[trigger] self.tray_items@[j]).service.spec_full()
        &&& self.battery matches Some(b) ==> self.battery_icon@ == battery_icon_of(b)
    }

    /// A bar with nothing to show yet but the battery's status, if there is a
    /// battery.
    pub fn new(battery: Option<BatteryStatus>) -> (r: Panel)
        ensures
            r.wf(),
            r.battery == battery,
            forall|i: u16| i < 16 ==> !r.workspaces.has(i),
            r.workspace_focused == usize::MAX,
            r.window_class@.len() == 0,
            r.window_title@.len() == 0,
            r.tray_items@.len() == 0,
            r.clock is None,
            r.tooltip_text is None,
    {
        let battery_icon = match &battery {
            Some(b) => b.icon(),
            None => Vec::new(),
        };
        Panel {
            workspaces: BitSet::new(),
            workspace_focused: usize::MAX,
            window_class: Vec::new(),
            window_title: Vec::new(),
            tray_items: Vec::new(),
            battery,
            battery_icon,
            clock: None,
            tooltip_text: None,
        }
    }

    /// Position of the tray item of `service`.
    fn tray_position(&self, service: &Tray) -> (r: Option<usize>)
        requires
            self.wf(),
        ensures
            r is None <==> tray_index(tray_view(self.tray_items@), service.spec_full()) is None,
            r matches Some(i) ==> tray_index(tray_view(self.tray_items@), service.spec_full()) == Some(i as int),
    {
        let ghost v = tray_view(self.tray_items@);
        let mut i: usize = 0;
        while i < self.tray_items.len()
            invariant
                i <= self.tray_items@.len(),
                self.wf(),
                v == tray_view(self.tray_items@),
                forall|j: int| 0 <= j < i ==> (#[trigger] v[j]).0 != service.spec_full(),
            decreases self.tray_items@.len() - i,
        {
            if self.tray_items[i].service.same(service) {
                proof {
                    assert(v[i as int].0 == service.spec_full());
                    let k = choose|k: int| 0 <= k < v.len() && (#[trigger] v[k]).0 == service.spec_full();
                    if k != i {
                        assert(v[k].0 == v[i as int].0);
                    }
                }
                return Some(i);
            }
            i += 1;
        }
        None
    }
}

/// The tray after `service` registered with icon `icon`: its entry is
/// replaced, or added at the end.
pub open spec fn tray_registered(v: Seq<(Seq<u8>, Seq<u8>)>, key: Seq<u8>, icon: Seq<u8>) -> Seq<(Seq<u8>, Seq<u8>)> {
    match tray_index(v, key) {
        Some(i) => v.update(i, (key, icon)),
        None => v.push((key, icon)),
    }
}

/// The tray after `service` changed its icon; unknown services are ignored.
pub open spec fn tray_new_icon(v: Seq<(Seq<u8>, Seq<u8>)>, key: Seq<u8>, icon: Seq<u8>) -> Seq<(Seq<u8>, Seq<u8>)> {
    match tray_index(v, key) {
        Some(i) => v.update(i, (key, icon)),
        None => v,
    }
}

/// The tray without `service`.
pub open spec fn tray_unregistered(v: Seq<(Seq<u8>, Seq<u8>)>, key: Seq<u8>) -> Seq<(Seq<u8>, Seq<u8>)> {
    match tray_index(v, key) {
        Some(i) => v.remove(i),
        None => v,
    }
}

/// The battery status after `e`.
pub open spec fn battery_updated(s: BatteryStatus, e: BatteryEvent) -> BatteryStatus {
    match e {
        BatteryEvent::PowerOnline => BatteryStatus { charging: Some(true), ..s },
        BatteryEvent::PowerOffline => BatteryStatus { charging: Some(false), ..s },
        BatteryEvent::Capacity(c) => BatteryStatus { capacity: c, ..s },
        BatteryEvent::Status(st) => BatteryStatus { status: st, ..s },
    }
}

/// `post` is `pre` after the workspace notification `e`. Ids count from one;
/// an id of zero, or past the sixteen flags, is ignored.
pub open spec fn workspaces_applied(pre: Panel, post: Panel, e: hyprland::Event) -> bool {
    match e {
        hyprland::Event::Workspace { id } => {
            &&& post.workspace_focused == if id >= 1 { (id - 1) as usize } else { pre.workspace_focused }
            &&& post.workspaces == pre.workspaces
            &&& post.window_class@ == pre.window_class@ && post.window_title@ == pre.window_title@
        },
        hyprland::Event::CreateWorkspace { id } => {
            &&& post.workspace_focused == pre.workspace_focused
            &&& if 1 <= id <= 16 {
                forall|i: u16| i < 16 ==> post.workspaces.has(i) == (i == id - 1 || pre.workspaces.has(i))
            } else {
                post.workspaces == pre.workspaces
            }
            &&& post.window_class@ == pre.window_class@ && post.window_title@ == pre.window_title@
        },
        hyprland::Event::DestroyWorkspace { id } => {
            &&& post.workspace_focused == pre.workspace_focused
            &&& if 1 <= id <= 16 {
                forall|i: u16| i < 16 ==> post.workspaces.has(i) == (i != id - 1 && pre.workspaces.has(i))
            } else {
                post.workspaces == pre.workspaces
            }
            &&& post.window_class@ == pre.window_class@ && post.window_title@ == pre.window_title@
        },
        hyprland::Event::ActiveWindow { class, title } => {
            &&& post.workspace_focused == pre.workspace_focused
            &&& post.workspaces == pre.workspaces
            &&& post.window_class@ == spec_truncate(class@, 15, ellipsis())
            &&& post.window_title@ == spec_truncate(title@, 50, ellipsis())
        },
    }
}

/// `post` is `pre` after the notification `event`; what the event does not
/// speak of stays as it was.
pub open spec fn spec_applied(pre: Panel, post: Panel, event: AppEvent) -> bool {
    let same_windows = post.workspaces == pre.workspaces && post.workspace_focused == pre.workspace_focused
        && post.window_class@ == pre.window_class@ && post.window_title@ == pre.window_title@;
    let same_tray = tray_view(post.tray_items@) == tray_view(pre.tray_items@);
    let same_battery = post.battery == pre.battery;
    match event {
        AppEvent::Hyprland(e) => workspaces_applied(pre, post, e) && same_tray && same_battery && post.clock
            == pre.clock && post.tooltip_text == pre.tooltip_text,
        AppEvent::Battery(e) => {
            &&& post.battery == match pre.battery {
                Some(s) => Some(battery_updated(s, e)),
                None => None,
            }
            &&& same_windows && same_tray && post.clock == pre.clock && post.tooltip_text == pre.tooltip_text
        },
        AppEvent::Clock(c) => post.clock == Some(c) && same_windows && same_tray && same_battery
            && post.tooltip_text == pre.tooltip_text,
        AppEvent::BatteryInfo(info) => {
            &&& if info.wf() && pre.tooltip_text is Some {
                post.tooltip_text matches Some(t) && t@ == info.spec_tooltip()
            } else {
                post.tooltip_text == pre.tooltip_text
            }
            &&& same_windows && same_tray && same_battery && post.clock == pre.clock
        },
        AppEvent::Tray(t) => {
            &&& tray_view(post.tray_items@) == match t {
                TrayEvent::Registered { service, icon_name } => tray_registered(
                    tray_view(pre.tray_items@),
                    service.spec_full(),
                    icon_name@,
                ),
                TrayEvent::NewIcon { service, icon_name } => tray_new_icon(
                    tray_view(pre.tray_items@),
                    service.spec_full(),
                    icon_name@,
                ),
                TrayEvent::Unregistered(service) => tray_unregistered(tray_view(pre.tray_items@), service.spec_full()),
                TrayEvent::Disconnected => Seq::empty(),
            }
            &&& same_windows && same_battery && post.clock == pre.clock && post.tooltip_text == pre.tooltip_text
        },
    }
}

impl Panel {
    /// Applies a collaborator's notification; see `spec_applied`. The battery
    /// icon follows the battery status.
    pub fn apply(&mut self, event: AppEvent)
        requires
            old(self).wf(),
        ensures
            final(self).wf(),
            spec_applied(*old(self), *final(self), event),
    {
        let ghost pre = *self;
        match event {
            AppEvent::Hyprland(e) => match e {
                hyprland::Event::Workspace { id } => {
                    if id >= 1 {
                        self.workspace_focused = id - 1;
                    }
                },
                hyprland::Event::CreateWorkspace { id } => {
                    if id >= 1 && id <= 16 {
                        self.workspaces.set(id - 1);
                    }
                },
                hyprland::Event::DestroyWorkspace { id } => {
                    if id >= 1 && id <= 16 {
                        self.workspaces.unset(id - 1);
                    }
                },
                hyprland::Event::ActiveWindow { class, title } => {
                    let dots: [u8; 3] = [0xe2, 0x80, 0xa6];
                    self.window_class = truncate(class.as_slice(), 15, &dots);
                    self.window_title = truncate(title.as_slice(), 50, &dots);
                },
            },
            AppEvent::Battery(e) => {
                if let Some(s) = self.battery {
                    let n = match e {
                        BatteryEvent::PowerOnline => BatteryStatus { charging: Some(true), ..s },
                        BatteryEvent::PowerOffline => BatteryStatus { charging: Some(false), ..s },
                        BatteryEvent::Capacity(c) => BatteryStatus { capacity: c, ..s },
                        BatteryEvent::Status(st) => BatteryStatus { status: st, ..s },
                    };
                    if n != s {
                        self.battery_icon = n.icon();
                    }
                    self.battery = Some(n);
                }
            },
            AppEvent::Clock(c) => {
                self.clock = Some(c);
            },
            AppEvent::BatteryInfo(info) => {
                if self.tooltip_text.is_some() && info.energy_full >= 1000 && (info.status != Status::Charging
                    || info.energy_now <= info.energy_full) && (info.power_now == 0 || info.power_now >= 10) {
                    self.tooltip_text = Some(info.tooltip());
                }
            },
            AppEvent::Tray(t) => match t {
                TrayEvent::Registered { service, icon_name } => {
                    match self.tray_position(&service) {
                        Some(i) => {
                            self.set_icon(i, icon_name);
                        },
                        None => {
                            self.add_item(service, icon_name);
                        },
                    }
                },
                TrayEvent::NewIcon { service, icon_name } => {
                    match self.tray_position(&service) {
                        Some(i) => {
                            self.set_icon(i, icon_name);
                        },
                        None => {},
                    }
                },
                TrayEvent::Unregistered(service) => {
                    match self.tray_position(&service) {
                        Some(i) => {
                            self.remove_item(i);
                        },
                        None => {},
                    }
                },
                TrayEvent::Disconnected => {
                    self.tray_items = Vec::new();
                    proof {
                        assert(tray_view(self.tray_items@) =~= Seq::empty());
                    }
                },
            },
        }
    }

    fn set_icon(&mut self, i: usize, icon_name: Vec<u8>)
        requires
            old(self).wf(),
            i < old(self).tray_items@.len(),
        ensures
            final(self).wf(),
            tray_view(final(self).tray_items@) == tray_view(old(self).tray_items@).update(
                i as int,
                (old(self).tray_items@[i as int].service.spec_full(), icon_name@),
            ),
            final(self).workspaces == old(self).workspaces,
            final(self).workspace_focused == old(self).workspace_focused,
            final(self).window_class == old(self).window_class,
            final(self).window_title == old(self).window_title,
            final(self).battery == old(self).battery,
            final(self).battery_icon == old(self).battery_icon,
            final(self).clock == old(self).clock,
            final(self).tooltip_text == old(self).tooltip_text,
    {
        self.tray_items[i].icon_name = icon_name;
        proof {
            assert(tray_view(self.tray_items@) =~= tray_view(old(self).tray_items@).update(
                i as int,
                (old(self).tray_items@[i as int].service.spec_full(), icon_name@),
            ));
            assert forall|a: int, b: int|
                0 <= a < self.tray_items@.len() && 0 <= b < self.tray_items@.len() && a != b
                    implies (#[trigger] self.tray_items@[a]).service.spec_full() != (#[trigger] self.tray_items@[b]).service.spec_full() by {
                assert(self.tray_items@[a].service == old(self).tray_items@[a].service);
                assert(self.tray_items@[b].service == old(self).tray_items@[b].service);
            }
        }
    }

    fn add_item(&mut self, service: Tray, icon_name: Vec<u8>)
        requires
            old(self).wf(),
            tray_index(tray_view(old(self).tray_items@), service.spec_full()) is None,
        ensures
            final(self).wf(),
            tray_view(final(self).tray_items@) == tray_view(old(self).tray_items@).push((service.spec_full(), icon_name@)),
            final(self).workspaces == old(self).workspaces,
            final(self).workspace_focused == old(self).workspace_focused,
            final(self).window_class == old(self).window_class,
            final(self).window_title == old(self).window_title,
            final(self).battery == old(self).battery,
            final(self).battery_icon == old(self).battery_icon,
            final(self).clock == old(self).clock,
            final(self).tooltip_text == old(self).tooltip_text,
    {
        let ghost key = service.spec_full();
        let ghost v = tray_view(old(self).tray_items@);
        self.tray_items.push(TrayItem { service, icon_name });
        proof {
            assert(tray_view(self.tray_items@) =~= v.push((key, icon_name@)));
            assert forall|a: int, b: int|
                0 <= a < self.tray_items@.len() && 0 <= b < self.tray_items@.len() && a != b
                    implies (#[trigger] self.tray_items@[a]).service.spec_full() != (#[trigger] self.tray_items@[b]).service.spec_full() by {
                let n = old(self).tray_items@.len() as int;
                if a == n {
                    assert(v[b].0 == self.tray_items@[b].service.spec_full());
                } else if b == n {
                    assert(v[a].0 == self.tray_items@[a].service.spec_full());
                } else {
                    assert(self.tray_items@[a] == old(self).tray_items@[a]);
                    assert(self.tray_items@[b] == old(self).tray_items@[b]);
                }
            }
        }
    }

    fn remove_item(&mut self, i: usize)
        requires
            old(self).wf(),
            i < old(self).tray_items@.len(),
        ensures
            final(self).wf(),
            tray_view(final(self).tray_items@) == tray_view(old(self).tray_items@).remove(i as int),
            final(self).workspaces == old(self).workspaces,
            final(self).workspace_focused == old(self).workspace_focused,
            final(self).window_class == old(self).window_class,
            final(self).window_title == old(self).window_title,
            final(self).battery == old(self).battery,
            final(self).battery_icon == old(self).battery_icon,
            final(self).clock == old(self).clock,
            final(self).tooltip_text == old(self).tooltip_text,
    {
        self.tray_items.remove(i);
        proof {
            assert(tray_view(self.tray_items@) =~= tray_view(old(self).tray_items@).remove(i as int));
            assert forall|a: int, b: int|
                0 <= a < self.tray_items@.len() && 0 <= b < self.tray_items@.len() && a != b
                    implies (#[trigger] self.tray_items@[a]).service.spec_full() != (#[trigger] self.tray_items@[b]).service.spec_full() by {
                let ao = if a < i { a } else { a + 1 };
                let bo = if b < i { b } else { b + 1 };
                assert(self.tray_items@[a] == old(self).tray_items@[ao]);
                assert(self.tray_items@[b] == old(self).tray_items@[bo]);
            }
        }
    }
}

} // verus!
