use vstd::prelude::*;

verus! {

/// The length of a memory mapping: fixed by the type, or chosen at run time.
pub trait Size: Copy + 'static {
    spec fn spec_size(self) -> usize;

    fn size(self) -> (r: usize)
        ensures
            r == self.spec_size(),
    ;
}

/// A length fixed by the type.
#[derive(Clone, Copy, Debug)]
pub struct Const<const VALUE: usize>;

impl<const VALUE: usize> Size for Const<VALUE> {
    open spec fn spec_size(self) -> usize {
        VALUE
    }

    fn size(self) -> (r: usize) {
        VALUE
    }
}

impl Size for usize {
    open spec fn spec_size(self) -> usize {
        self
    }

    fn size(self) -> (r: usize) {
        self
    }
}

/// One page.
pub type Page = Const<4096>;

} // verus!
