use vstd::prelude::*;

use crate::object::{Interface, Object};
use crate::protocol::Request;
use crate::window::{ConfigState, Role, State, Surface, Tag, Window};

verus! {

/// A bookkeeping fault that the registry refuses instead of overwriting.
#[derive(Clone, Copy, Debug, PartialEq, Eq, Structural)]
pub enum RegistryError {
    /// The identity is registered already.
    DuplicateKey,
    /// No window answers to the identity.
    NotFound,
}

/// The requests that tear a window down: its awaited frame callback, its
/// role's objects children first, its base surface, then its buffer.
pub open spec fn spec_teardown(w: Window) -> Seq<Request> {
    let callback = match w.state.frame_callback {
        Some(cb) => seq![Request::Destroy { object: cb, interface: Interface::Callback }],
        None => seq![],
    };
    callback + w.surface.spec_destroy() + w.state.config_state.spec_release()
}

/// Some window of `ws` answers to `o`.
pub open spec fn seq_registered(ws: Seq<Window>, o: Object) -> bool {
    exists|i: int| 0 <= i < ws.len() && (#[trigger] ws[i]).surface.owns(o)
}

/// The position of the window of `ws` that answers to `o`.
pub open spec fn seq_owner(ws: Seq<Window>, o: Object) -> int {
    choose|i: int| 0 <= i < ws.len() && (#[trigger] ws[i]).surface.owns(o)
}

/// The surface registry: every live window, each found under its base
/// surface and its role object, and the surface that has pointer focus.
pub struct WindowManager {
    pub windows: Vec<Window>,
    pub focused: Option<Object>,
    /// The name that the next buffer gets.
    pub next_buffer: u64,
}

impl WindowManager {
    /// Every window is well formed; no identity and no awaited frame callback
    /// belongs to two windows.
    pub open spec fn wf(&self) -> bool {
        &&& forall|i: int| 0 <= i < self.windows@.len() ==> (#[trigger] self.windows@[i]).wf()
        &&& forall|i: int, j: int|
            0 <= i < self.windows@.len() && 0 <= j < self.windows@.len() && i != j ==> {
                &&& !(#[trigger] self.windows@[j]).surface.owns((#[trigger] self.windows@[i]).surface.surface)
                &&& !self.windows@[j].surface.owns(self.windows@[i].surface.role.spec_key())
                &&& (self.windows@[i].state.frame_callback is Some ==> self.windows@[j].state.frame_callback
                    != self.windows@[i].state.frame_callback)
            }
    }

    /// Some window answers to `o`.
    pub open spec fn registered(&self, o: Object) -> bool {
        seq_registered(self.windows@, o)
    }

    /// Window `i` has the pointer focus.
    pub open spec fn is_focused(&self, i: int) -> bool {
        self.focused matches Some(f) && self.windows@[i].surface.owns(f)
    }

    /// Some window awaits the frame callback `cb`.
    pub open spec fn awaits(&self, cb: Object) -> bool {
        exists|i: int| 0 <= i < self.windows@.len() && (#[trigger] self.windows@[i]).state.frame_callback == Some(cb)
    }

    /// The position of the window that answers to `o`.
    pub open spec fn owner(&self, o: Object) -> int {
        seq_owner(self.windows@, o)
    }

    /// The position of the window that awaits the frame callback `cb`.
    pub open spec fn frame_owner(&self, cb: Object) -> int {
        choose|i: int| 0 <= i < self.windows@.len() && (#[trigger] self.windows@[i]).state.frame_callback == Some(cb)
    }

    /// A registry with no window.
    pub fn new() -> (r: WindowManager)
        ensures
            r.wf(),
            r.windows@.len() == 0,
            r.focused is None,
    {
        WindowManager { windows: Vec::new(), focused: None, next_buffer: 1 }
    }

    /// A name for a new buffer.
    pub fn fresh_buffer(&mut self) -> (r: u64)
        ensures
            r == old(self).next_buffer,
            final(self).windows == old(self).windows,
            final(self).focused == old(self).focused,
    {
        let r = self.next_buffer;
        self.next_buffer = self.next_buffer.wrapping_add(1);
        r
    }

    /// Position of the window that answers to `o`.
    pub fn find_index(&self, o: Object) -> (r: Option<usize>)
        ensures
            r is None <==> !self.registered(o),
            r matches Some(i) ==> i < self.windows@.len() && self.windows@[i as int].surface.owns(o),
    {
        let mut i: usize = 0;
        while i < self.windows.len()
            invariant
                i <= self.windows@.len(),
                forall|j: int| 0 <= j < i ==> !(#[trigger] self.windows@[j]).surface.owns(o),
            decreases self.windows@.len() - i,
        {
            let s = self.windows[i].surface;
            if s.surface == o || s.role.key() == o {
                return Some(i);
            }
            i += 1;
        }
        None
    }

    /// The window that answers to `o`; none for an identity that is gone.
    pub fn find_by_object(&self, o: Object) -> (r: Option<&Window>)
        ensures
            r is None <==> !self.registered(o),
            r matches Some(w) ==> w.surface.owns(o) && exists|i: int|
                0 <= i < self.windows@.len() && self.windows@[i] == *w,
    {
        match self.find_index(o) {
            Some(i) => Some(&self.windows[i]),
            None => None,
        }
    }

    /// Position of the window with the pointer focus.
    pub fn focused_index(&self) -> (r: Option<usize>)
        ensures
            r is None <==> !(self.focused matches Some(f) && self.registered(f)),
            r matches Some(i) ==> i < self.windows@.len() && self.is_focused(i as int),
    {
        match self.focused {
            Some(f) => self.find_index(f),
            None => None,
        }
    }

    /// The window with the pointer focus.
    pub fn focused(&self) -> (r: Option<&Window>)
        ensures
            r is None <==> !(self.focused matches Some(f) && self.registered(f)),
            r matches Some(w) ==> exists|i: int|
                0 <= i < self.windows@.len() && self.windows@[i] == *w && self.is_focused(i),
    {
        match self.focused_index() {
            Some(i) => Some(&self.windows[i]),
            None => None,
        }
    }

    /// Position of the window that awaits the frame callback `cb`.
    pub fn frame_index(&self, cb: Object) -> (r: Option<usize>)
        ensures
            r is None <==> !self.awaits(cb),
            r matches Some(i) ==> i < self.windows@.len() && self.windows@[i as int].state.frame_callback
                == Some(cb),
    {
        let mut i: usize = 0;
        while i < self.windows.len()
            invariant
                i <= self.windows@.len(),
                forall|j: int| 0 <= j < i ==> (#[trigger] self.windows@[j]).state.frame_callback != Some(cb),
            decreases self.windows@.len() - i,
        {
            if self.windows[i].state.frame_callback == Some(cb) {
                return Some(i);
            }
            i += 1;
        }
        None
    }

    /// Registers a new, unconfigured window under its base surface and its
    /// role object, and gives its position. An identity that is registered
    /// already, or a role object that is the base surface itself, is refused
    /// and nothing changes.
    pub fn create_window(&mut self, surface: Object, role: Role, tag: Tag) -> (r: Result<usize, RegistryError>)
        requires
            old(self).wf(),
        ensures
            final(self).wf(),
            (old(self).registered(surface) || old(self).registered(role.spec_key()) || surface == role.spec_key())
                ==> r == Err::<usize, RegistryError>(RegistryError::DuplicateKey) && final(self).windows@ == old(self).windows@,
            !(old(self).registered(surface) || old(self).registered(role.spec_key()) || surface == role.spec_key())
                ==> {
                &&& r == Ok::<usize, RegistryError>(old(self).windows@.len() as usize)
                &&& final(self).windows@.drop_last() == old(self).windows@
                &&& final(self).windows@.len() == old(self).windows@.len() + 1
                &&& ({
                    let w = final(self).windows@.last();
                    &&& w.surface == (Surface { role, surface })
                    &&& w.tag == tag
                    &&& w.state.config_state == (ConfigState::Unconfigured { scale_factor: 1 })
                    &&& w.state.cursor is None && w.state.serial is None && w.state.shape is None
                    &&& !w.state.frame_requested && w.state.frame_callback is None
                })
            },
            r matches Ok(i) ==> i < final(self).windows@.len() && final(self).windows@[i as int].surface == (Surface {
                role,
                surface,
            }) && final(self).windows@[i as int].tag == tag,
            final(self).focused == old(self).focused,
    {
        let key = role.key();
        if surface == key || self.find_index(surface).is_some() || self.find_index(key).is_some() {
            return Err(RegistryError::DuplicateKey);
        }
        let n = self.windows.len();
        let window = Window::new(Surface { role, surface }, tag);
        self.windows.push(window);
        proof {
            assert(self.windows@.drop_last() == old(self).windows@);
            assert forall|i: int, j: int|
                0 <= i < self.windows@.len() && 0 <= j < self.windows@.len() && i != j implies {
                &&& !(#[trigger] self.windows@[j]).surface.owns((#[trigger] self.windows@[i]).surface.surface)
                &&& !self.windows@[j].surface.owns(self.windows@[i].surface.role.spec_key())
                &&& (self.windows@[i].state.frame_callback is Some ==> self.windows@[j].state.frame_callback
                    != self.windows@[i].state.frame_callback)
            } by {
                if i == n as int {
                    assert(old(self).windows@[j] == self.windows@[j]);
                    if self.windows@[j].surface.owns(surface) {
                        assert(old(self).registered(surface));
                    }
                    if self.windows@[j].surface.owns(key) {
                        assert(old(self).registered(key));
                    }
                } else if j == n as int {
                    assert(old(self).windows@[i] == self.windows@[i]);
                    let s = self.windows@[i].surface;
                    if s.surface == surface || s.surface == key {
                        assert(old(self).windows@[i].surface.owns(s.surface));
                    }
                    if s.role.spec_key() == surface || s.role.spec_key() == key {
                        assert(old(self).windows@[i].surface.owns(s.role.spec_key()));
                    }
                } else {
                    assert(old(self).windows@[i] == self.windows@[i]);
                    assert(old(self).windows@[j] == self.windows@[j]);
                }
            }
        }
        Ok(n)
    }

    /// Closes the window whose base surface is `surface`: it no longer
    /// answers to any of its identities, focus on it is cleared, and the
    /// requests that tear it down are given. The other windows stay as they
    /// were. No window with that base surface: nothing changes.
    pub fn close_window(&mut self, surface: Object) -> (r: Vec<Request>)
        requires
            old(self).wf(),
        ensures
            final(self).wf(),
            old(self).focused == Some(surface) ==> final(self).focused is None,
            old(self).focused != Some(surface) ==> final(self).focused == old(self).focused,
            match old(self).find_window(surface) {
                Some(i) => {
                    &&& final(self).windows@ == old(self).windows@.remove(i)
                    &&& r@ == spec_teardown(old(self).windows@[i])
                    &&& forall|o: Object| old(self).windows@[i].surface.owns(o) ==> !final(self).registered(o)
                },
                None => final(self).windows@ == old(self).windows@ && r@.len() == 0,
            },
    {
        if self.focused == Some(surface) {
            self.focused = None;
        }
        let i = match self.base_index(surface) {
            Some(i) => i,
            None => {
                return Vec::new();
            },
        };
        let ghost gi = i as int;
        proof {
            assert(old(self).windows@[gi].surface.surface == surface);
            let k = old(self).find_window(surface)->0;
            assert(old(self).windows@[k].surface.surface == surface);
            if k != gi {
                assert(old(self).windows@[gi].surface.owns(old(self).windows@[k].surface.surface));
            }
        }
        let w = self.windows.remove(i);
        let mut r: Vec<Request> = Vec::new();
        if let Some(cb) = w.state.frame_callback {
            r.push(Request::Destroy { object: cb, interface: Interface::Callback });
        }
        let mut role = w.surface.role.destroy();
        r.append(&mut role);
        r.push(Request::Destroy { object: w.surface.surface, interface: Interface::Surface });
        match &w.state.config_state {
            ConfigState::Configured { buffer, .. } => {
                r.push(Request::DestroyBuffer { buffer: buffer.buffer });
            },
            ConfigState::Unconfigured { .. } => {},
        }
        proof {
            assert(r@ == spec_teardown(old(self).windows@[gi]));
            assert forall|o: Object| old(self).windows@[gi].surface.owns(o) implies !self.registered(o) by {
                if self.registered(o) {
                    let k = choose|k: int| 0 <= k < self.windows@.len() && (#[trigger] self.windows@[k]).surface.owns(o);
                    let ko = if k < gi { k } else { k + 1 };
                    assert(self.windows@[k] == old(self).windows@[ko]);
                    let ws = old(self).windows@[gi].surface;
                    if o == ws.surface {
                        assert(old(self).windows@[ko].surface.owns(old(self).windows@[gi].surface.surface));
                    } else {
                        assert(old(self).windows@[ko].surface.owns(old(self).windows@[gi].surface.role.spec_key()));
                    }
                }
            };
            assert forall|a: int, b: int|
                0 <= a < self.windows@.len() && 0 <= b < self.windows@.len() && a != b implies {
                &&& !(#[trigger] self.windows@[b]).surface.owns((#[trigger] self.windows@[a]).surface.surface)
                &&& !self.windows@[b].surface.owns(self.windows@[a].surface.role.spec_key())
                &&& (self.windows@[a].state.frame_callback is Some ==> self.windows@[b].state.frame_callback
                    != self.windows@[a].state.frame_callback)
            } by {
                let ao = if a < gi { a } else { a + 1 };
                let bo = if b < gi { b } else { b + 1 };
                assert(self.windows@[a] == old(self).windows@[ao]);
                assert(self.windows@[b] == old(self).windows@[bo]);
            }
            assert forall|a: int| 0 <= a < self.windows@.len() implies (#[trigger] self.windows@[a]).wf() by {
                let ao = if a < gi { a } else { a + 1 };
                assert(self.windows@[a] == old(self).windows@[ao]);
            }
        }
        r
    }

    /// Records `callback` as the object of the frame notification that the
    /// window whose base surface is `surface` asked for. An identity awaited
    /// already, or a window that already has one, is refused as a duplicate;
    /// no such window, or one that asked for none, as not found. Nothing
    /// changes on a refusal.
    pub fn name_frame(&mut self, surface: Object, callback: Object) -> (r: Result<(), RegistryError>)
        requires
            old(self).wf(),
        ensures
            final(self).wf(),
            final(self).focused == old(self).focused,
            match old(self).find_window(surface) {
                None => r == Err::<(), RegistryError>(RegistryError::NotFound) && final(self).windows == old(self).windows,
                Some(i) => if !old(self).windows@[i].state.frame_requested {
                    r == Err::<(), RegistryError>(RegistryError::NotFound) && final(self).windows == old(self).windows
                } else if old(self).awaits(callback) || old(self).windows@[i].state.frame_callback is Some {
                    r == Err::<(), RegistryError>(RegistryError::DuplicateKey) && final(self).windows == old(self).windows
                } else {
                    &&& r == Ok::<(), RegistryError>(())
                    &&& final(self).windows@ == old(self).windows@.update(i, Window {
                        state: State { frame_callback: Some(callback), ..old(self).windows@[i].state },
                        ..old(self).windows@[i]
                    })
                },
            },
    {
        let i = match self.base_index(surface) {
            Some(i) => i,
            None => {
                return Err(RegistryError::NotFound);
            },
        };
        proof {
            let k = old(self).find_window(surface)->0;
            assert(old(self).windows@[k].surface.surface == surface);
            if k != i as int {
                assert(old(self).windows@[i as int].surface.owns(old(self).windows@[k].surface.surface));
            }
        }
        if !self.windows[i].state.frame_requested {
            return Err(RegistryError::NotFound);
        }
        if self.frame_index(callback).is_some() || self.windows[i].state.frame_callback.is_some() {
            return Err(RegistryError::DuplicateKey);
        }
        self.windows[i].frame_named(callback);
        proof {
            assert forall|a: int, b: int|
                0 <= a < self.windows@.len() && 0 <= b < self.windows@.len() && a != b implies {
                &&& !(#[trigger] self.windows@[b]).surface.owns((#[trigger] self.windows@[a]).surface.surface)
                &&& !self.windows@[b].surface.owns(self.windows@[a].surface.role.spec_key())
                &&& (self.windows@[a].state.frame_callback is Some ==> self.windows@[b].state.frame_callback
                    != self.windows@[a].state.frame_callback)
            } by {
                if a != i as int && b != i as int {
                    assert(self.windows@[a] == old(self).windows@[a]);
                    assert(self.windows@[b] == old(self).windows@[b]);
                } else if a == i as int {
                    assert(self.windows@[b] == old(self).windows@[b]);
                    if self.windows@[b].state.frame_callback == Some(callback) {
                        assert(old(self).awaits(callback));
                    }
                } else {
                    assert(self.windows@[a] == old(self).windows@[a]);
                    if self.windows@[a].state.frame_callback == Some(callback) {
                        assert(old(self).awaits(callback));
                    }
                }
            }
            assert forall|a: int| 0 <= a < self.windows@.len() implies (#[trigger] self.windows@[a]).wf() by {
                if a != i as int {
                    assert(self.windows@[a] == old(self).windows@[a]);
                }
            }
            assert(self.windows@ =~= old(self).windows@.update(i as int, Window {
                state: State { frame_callback: Some(callback), ..old(self).windows@[i as int].state },
                ..old(self).windows@[i as int]
            }));
        }
        Ok(())
    }

    /// Position of the window whose base surface is `s`.
    fn base_index(&self, s: Object) -> (r: Option<usize>)
        ensures
            r is None <==> self.find_window(s) is None,
            r matches Some(i) ==> i < self.windows@.len() && self.windows@[i as int].surface.surface == s,
    {
        let mut i: usize = 0;
        while i < self.windows.len()
            invariant
                i <= self.windows@.len(),
                forall|j: int| 0 <= j < i ==> (#[trigger] self.windows@[j]).surface.surface != s,
            decreases self.windows@.len() - i,
        {
            if self.windows[i].surface.surface == s {
                return Some(i);
            }
            i += 1;
        }
        None
    }

    /// Position of the window whose base surface is `s`, if any.
    pub open spec fn find_window(&self, s: Object) -> Option<int> {
        if exists|i: int| 0 <= i < self.windows@.len() && (#[trigger] self.windows@[i]).surface.surface == s {
            Some(choose|i: int| 0 <= i < self.windows@.len() && (#[trigger] self.windows@[i]).surface.surface == s)
        } else {
            None
        }
    }
}

/// Once the window at `i`, with base surface `surface`, is closed, none of
/// its identities finds a window, and if it had the focus no window is
/// focused.
pub proof fn lemma_close_forgets(pre: &WindowManager, post: &WindowManager, surface: Object, i: int)
    requires
        pre.wf(),
        pre.find_window(surface) == Some(i),
        post.windows@ == pre.windows@.remove(i),
        pre.focused == Some(surface) ==> post.focused is None,
        pre.focused != Some(surface) ==> post.focused == pre.focused,
    ensures
        forall|o: Object| pre.windows@[i].surface.owns(o) ==> !post.registered(o),
        pre.is_focused(i) ==> !(post.focused matches Some(f) && post.registered(f)),
{
    let wi = pre.windows@[i];
    assert(wi.surface.surface == surface);
    assert forall|o: Object| wi.surface.owns(o) implies !post.registered(o) by {
        if post.registered(o) {
            let k = choose|k: int| 0 <= k < post.windows@.len() && (#[trigger] post.windows@[k]).surface.owns(o);
            let ko = if k < i { k } else { k + 1 };
            assert(post.windows@[k] == pre.windows@[ko]);
            lemma_owner_unique(pre, i, ko, o);
        }
    }
}

/// In a well-formed registry one window at most answers to an identity.
pub proof fn lemma_owner_unique(m: &WindowManager, i: int, k: int, o: Object)
    requires
        m.wf(),
        0 <= i < m.windows@.len(),
        0 <= k < m.windows@.len(),
        m.windows@[i].surface.owns(o),
        m.windows@[k].surface.owns(o),
    ensures
        i == k,
{
    if i != k {
        let wi = m.windows@[i];
        let wk = m.windows@[k];
        assert(!wk.surface.owns(wi.surface.surface));
        assert(!wk.surface.owns(wi.surface.role.spec_key()));
    }
}

/// In a well-formed registry one window at most awaits a frame callback.
pub proof fn lemma_frame_owner_unique(m: &WindowManager, i: int, k: int, cb: Object)
    requires
        m.wf(),
        0 <= i < m.windows@.len(),
        0 <= k < m.windows@.len(),
        m.windows@[i].state.frame_callback == Some(cb),
        m.windows@[k].state.frame_callback == Some(cb),
    ensures
        i == k,
{
    if i != k {
        assert(m.windows@[i].state.frame_callback is Some ==> m.windows@[k].state.frame_callback
            != m.windows@[i].state.frame_callback);
    }
}

/// Replacing a window by a well-formed one with the same identities and no
/// other frame callback keeps the registry well formed and answering to the
/// same identities.
pub proof fn lemma_replace_window(pre: &WindowManager, post: &WindowManager, i: int)
    requires
        pre.wf(),
        0 <= i < pre.windows@.len(),
        post.windows@.len() == pre.windows@.len(),
        forall|j: int| 0 <= j < pre.windows@.len() && j != i ==> post.windows@[j] == pre.windows@[j],
        post.windows@[i].wf(),
        post.windows@[i].surface.surface == pre.windows@[i].surface.surface,
        post.windows@[i].surface.role.spec_key() == pre.windows@[i].surface.role.spec_key(),
        post.windows@[i].state.frame_callback is None || post.windows@[i].state.frame_callback
            == pre.windows@[i].state.frame_callback,
    ensures
        post.wf(),
        forall|o: Object| pre.registered(o) <==> post.registered(o),
{
    assert forall|a: int| 0 <= a < post.windows@.len() implies (#[trigger] post.windows@[a]).wf() by {
        if a != i {
            assert(post.windows@[a] == pre.windows@[a]);
        }
    }
    assert forall|a: int, b: int|
        0 <= a < post.windows@.len() && 0 <= b < post.windows@.len() && a != b implies {
        &&& !(#[trigger] post.windows@[b]).surface.owns((#[trigger] post.windows@[a]).surface.surface)
        &&& !post.windows@[b].surface.owns(post.windows@[a].surface.role.spec_key())
        &&& (post.windows@[a].state.frame_callback is Some ==> post.windows@[b].state.frame_callback
            != post.windows@[a].state.frame_callback)
    } by {
        assert(pre.windows@[a].surface.surface == post.windows@[a].surface.surface);
        assert(pre.windows@[b].surface.surface == post.windows@[b].surface.surface);
        assert(pre.windows@[a].surface.role.spec_key() == post.windows@[a].surface.role.spec_key());
        assert(pre.windows@[b].surface.role.spec_key() == post.windows@[b].surface.role.spec_key());
        assert(!pre.windows@[b].surface.owns(pre.windows@[a].surface.surface));
    }
    assert forall|o: Object| pre.registered(o) <==> post.registered(o) by {
        if pre.registered(o) {
            let k = choose|k: int| 0 <= k < pre.windows@.len() && (#[trigger] pre.windows@[k]).surface.owns(o);
            assert(post.windows@[k].surface.owns(o));
        }
        if post.registered(o) {
            let k = choose|k: int| 0 <= k < post.windows@.len() && (#[trigger] post.windows@[k]).surface.owns(o);
            assert(pre.windows@[k].surface.owns(o));
        }
    }
}

} // verus!
