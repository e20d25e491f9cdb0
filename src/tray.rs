use vstd::prelude::*;
use vstd::slice::{slice_subrange, slice_to_vec};

use crate::text::{bytes_eq, first_index, position, push_bytes};

verus! {

/// A status-notifier item: its bus name and object path, held as one string
/// split at `split`.
#[derive(Debug)]
pub struct Tray {
    data: Vec<u8>,
    split: usize,
}

impl View for Tray {
    type V = (Seq<u8>, Seq<u8>);

    /// Bus name and object path.
    closed spec fn view(&self) -> (Seq<u8>, Seq<u8>) {
        (self.data@.subrange(0, self.split as int), self.data@.subrange(self.split as int, self.data@.len() as int))
    }
}

impl Tray {
    /// The split falls inside the string.
    #[verifier::type_invariant]
    closed spec fn wf(&self) -> bool {
        self.split <= self.data@.len()
    }

    /// The whole string, name then path.
    pub open spec fn spec_full(&self) -> Seq<u8> {
        self@.0 + self@.1
    }

    /// Splits a registered service string, `NAME/PATH...`, before its first
    /// `/`; none without one.
    pub fn try_from_string(service: &[u8]) -> (r: Option<Tray>)
        ensures
            r is Some <==> first_index(service@, 47) is Some,
            r matches Some(t) ==> t@ == (
                service@.subrange(0, first_index(service@, 47)->0),
                service@.subrange(first_index(service@, 47)->0, service@.len() as int),
            ),
    {
        match position(service, 47) {
            Some(split) => Some(Tray { data: slice_to_vec(service), split }),
            None => None,
        }
    }

    /// The item of bus name `name` at object path `path`.
    pub fn new(name: &[u8], path: &[u8]) -> (r: Tray)
        ensures
            r@ == (name@, path@),
    {
        let mut data: Vec<u8> = Vec::new();
        push_bytes(&mut data, name);
        push_bytes(&mut data, path);
        proof {
            assert(data@.subrange(0, name@.len() as int) =~= name@);
            assert(data@.subrange(name@.len() as int, data@.len() as int) =~= path@);
        }
        Tray { data, split: name.len() }
    }

    /// The bus name.
    pub fn name(&self) -> (r: &[u8])
        ensures
            r@ == self@.0,
    {
        proof {
            use_type_invariant(self);
        }
        slice_subrange(self.data.as_slice(), 0, self.split)
    }

    /// The object path.
    pub fn path(&self) -> (r: &[u8])
        ensures
            r@ == self@.1,
    {
        proof {
            use_type_invariant(self);
        }
        slice_subrange(self.data.as_slice(), self.split, self.data.len())
    }

    /// Two items are the same service when their strings are equal.
    pub fn same(&self, other: &Tray) -> (r: bool)
        ensures
            r == (self.spec_full() == other.spec_full()),
    {
        proof {
            use_type_invariant(self);
            use_type_invariant(other);
            assert(self.data@ =~= self.spec_full());
            assert(other.data@ =~= other.spec_full());
        }
        bytes_eq(self.data.as_slice(), other.data.as_slice())
    }
}

impl Clone for Tray {
    fn clone(&self) -> Self {
        proof {
            use_type_invariant(self);
        }
        Tray { data: slice_to_vec(self.data.as_slice()), split: self.split }
    }
}

/// A change of the status-notifier host.
#[derive(Clone, Debug)]
pub enum TrayEvent {
    Registered { service: Tray, icon_name: Vec<u8> },
    NewIcon { service: Tray, icon_name: Vec<u8> },
    Unregistered(Tray),
    Disconnected,
}

} // verus!
