use vstd::prelude::*;

verus! {

/// Identity of a compositor-side protocol object (a surface, a popup, a frame
/// callback ...). It is stable for the object's lifetime, is only ever
/// compared, and is never null.
#[derive(Clone, Copy, Debug, PartialEq, Eq, Hash, Structural)]
pub struct Object {
    pub raw: u64,
}

impl Object {
    /// Wraps a raw identity, which must not be null.
    pub fn from_raw(raw: u64) -> (r: Object)
        requires
            raw != 0,
        ensures
            r.raw == raw,
    {
        Object { raw }
    }
}

/// The protocol interfaces of the objects that the panel destroys.
#[derive(Clone, Copy, Debug, PartialEq, Eq, Structural)]
pub enum Interface {
    Surface,
    Callback,
    LayerSurface,
    XdgSurface,
    XdgPopup,
    XdgPositioner,
}

/// An object that the panel must destroy once it is done with it.
#[derive(Debug, PartialEq, Eq, Structural)]
pub struct OwnedObject {
    pub object: Object,
    pub interface: Interface,
}

impl OwnedObject {
    /// Takes ownership of a raw identity of the given interface, which must
    /// not be null.
    pub fn from_raw(raw: u64, interface: Interface) -> (r: OwnedObject)
        requires
            raw != 0,
        ensures
            r.object.raw == raw,
            r.interface == interface,
    {
        OwnedObject { object: Object::from_raw(raw), interface }
    }

    /// Gives the object up: the request that destroys it.
    pub fn destroy(self) -> (r: crate::protocol::Request)
        ensures
            r == (crate::protocol::Request::Destroy { object: self.object, interface: self.interface }),
    {
        crate::protocol::Request::Destroy { object: self.object, interface: self.interface }
    }
}

} // verus!
