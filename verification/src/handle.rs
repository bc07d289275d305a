//! Identity of native objects, and what has one.

use vstd::prelude::*;

verus! {

/// The identity of one platform-allocated object (a view or a window).
///
/// The library never looks inside a handle: it carries it, compares it and
/// uses it as a key.
#[derive(Clone, Copy, Debug, PartialEq, Eq, Structural)]
pub struct Handle {
    /// The value the platform knows the object by.
    pub raw: u64,
}

/// Anything that stands for one native object in the node tree.
pub trait Node {
    /// The native object this node stands for.
    spec fn handle_spec(&self) -> Handle;

    /// The native object this node stands for. It is the same at every call.
    fn handle(&self) -> (h: Handle)
        ensures
            h == self.handle_spec(),
    ;
}

/// A handle stands for the native object it names.
impl Node for Handle {
    open spec fn handle_spec(&self) -> Handle {
        *self
    }

    fn handle(&self) -> (h: Handle) {
        *self
    }
}

} // verus!
