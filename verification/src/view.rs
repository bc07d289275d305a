//! Views: containers of other nodes, with a style and four mouse events.

use crate::event::Event;
use crate::event::EventKind;
use crate::event::EventRegistry;
use crate::handle::Handle;
use crate::handle::Node;
use crate::values::Color;
use crate::values::Length;
use crate::tree::NodeTree;
use crate::tree::TreeInsertionFailed;
use vstd::prelude::*;
use vstd::view::View as _;

verus! {

/// A view as mathematics: the native view it owns and the style it was given.
pub struct ViewState {
    /// The native view.
    pub handle: Handle,
    /// The background colour it was given; `None` while it has the platform's own.
    pub background: Option<Color>,
    /// The corner radius it was given; `None` while it has the platform's own.
    pub corner_radius: Option<Length>,
}

/// One native view, owned.
///
/// A `View` holds one reference to its native view from `new` to `release`.
/// It cannot be copied: a second owner needs a reference of its own.
pub struct View {
    handle: Handle,
    background: Option<Color>,
    corner_radius: Option<Length>,
}

impl vstd::view::View for View {
    type V = ViewState;

    closed spec fn view(&self) -> ViewState {
        ViewState {
            handle: self.handle,
            background: self.background,
            corner_radius: self.corner_radius,
        }
    }
}

impl Node for View {
    open spec fn handle_spec(&self) -> Handle {
        self@.handle
    }

    fn handle(&self) -> (h: Handle) {
        self.handle
    }
}

impl View {
    /// Takes ownership of the native view `handle`, which was just allocated.
    /// The view has the platform's own style.
    pub fn new(handle: Handle) -> (view: View)
        ensures
            view@ == (ViewState { handle, background: None, corner_radius: None }),
    {
        View { handle, background: None, corner_radius: None }
    }

    /// Records the outcome of adding `node` to this view as a subview.
    ///
    /// Where the native view took it (`native_inserted`), `node` becomes the
    /// last layout child of this view, at the position equal to the number
    /// of children the view had, and its last native subview on record, at
    /// the same position. Where the native view did not take it, neither
    /// tree changes and the failure is returned.
    ///
    /// `node` must be nobody's child yet.
    pub fn add<N: Node>(&self, tree: &mut NodeTree, node: &N, native_inserted: bool) -> (done:
        Result<(), TreeInsertionFailed>)
        requires
            !old(tree)@.layout.is_attached(node.handle_spec()),
        ensures
            final(tree)@ == old(tree)@.after_add(
                self@.handle,
                node.handle_spec(),
                native_inserted,
            ),
            done == (if native_inserted {
                Ok::<(), TreeInsertionFailed>(())
            } else {
                Err::<(), TreeInsertionFailed>(TreeInsertionFailed)
            }),
            native_inserted ==> final(tree)@.layout.children_of(self@.handle)
                == old(tree)@.layout.children_of(self@.handle).push(node.handle_spec()),
            native_inserted ==> final(tree)@.subviews_of(self@.handle)
                == old(tree)@.subviews_of(self@.handle).push(node.handle_spec()),
            final(tree)@.wf(),
    {
        proof {
            old(tree)@.lemma_attach_lists(self@.handle, node.handle_spec());
        }
        let incoming = node.handle();
        tree.attach(self.handle, incoming, native_inserted)
    }

    /// Gives the view the background colour `color`.
    pub fn set_background_color(&mut self, color: Color)
        ensures
            final(self)@ == (ViewState { background: Some(color), ..old(self)@ }),
    {
        self.background = Some(color);
    }

    /// Gives the view's corners the radius `radius`.
    pub fn set_corner_radius(&mut self, radius: Length)
        ensures
            final(self)@ == (ViewState { corner_radius: Some(radius), ..old(self)@ }),
    {
        self.corner_radius = Some(radius);
    }

    /// The background colour the view was given, if it was given one.
    pub fn background_color(&self) -> (color: Option<Color>)
        ensures
            color == self@.background,
    {
        self.background
    }

    /// The corner radius the view was given, if it was given one.
    pub fn corner_radius(&self) -> (radius: Option<Length>)
        ensures
            radius == self@.corner_radius,
    {
        self.corner_radius
    }

    /// This view's mouse-down event in `events`, to subscribe to. What the
    /// caller leaves in it is what `events` holds for this view and kind from
    /// then on; no other event changes, nor does the view.
    pub fn mouse_down<'a>(&mut self, events: &'a mut EventRegistry) -> (event: &'a mut Event)
        ensures
            final(self)@ == old(self)@,
            event@ == old(events)@[(old(self)@.handle, EventKind::MouseDown)],
            final(events)@ == old(events)@.insert(
                (old(self)@.handle, EventKind::MouseDown),
                final(event)@,
            ),
    {
        events.event(self.handle, EventKind::MouseDown)
    }

    /// This view's mouse-up event in `events`, on the same terms.
    pub fn mouse_up<'a>(&mut self, events: &'a mut EventRegistry) -> (event: &'a mut Event)
        ensures
            final(self)@ == old(self)@,
            event@ == old(events)@[(old(self)@.handle, EventKind::MouseUp)],
            final(events)@ == old(events)@.insert(
                (old(self)@.handle, EventKind::MouseUp),
                final(event)@,
            ),
    {
        events.event(self.handle, EventKind::MouseUp)
    }

    /// This view's mouse-enter event in `events`, on the same terms.
    pub fn mouse_enter<'a>(&mut self, events: &'a mut EventRegistry) -> (event: &'a mut Event)
        ensures
            final(self)@ == old(self)@,
            event@ == old(events)@[(old(self)@.handle, EventKind::MouseEnter)],
            final(events)@ == old(events)@.insert(
                (old(self)@.handle, EventKind::MouseEnter),
                final(event)@,
            ),
    {
        events.event(self.handle, EventKind::MouseEnter)
    }

    /// This view's mouse-leave event in `events`, on the same terms.
    pub fn mouse_leave<'a>(&mut self, events: &'a mut EventRegistry) -> (event: &'a mut Event)
        ensures
            final(self)@ == old(self)@,
            event@ == old(events)@[(old(self)@.handle, EventKind::MouseLeave)],
            final(events)@ == old(events)@.insert(
                (old(self)@.handle, EventKind::MouseLeave),
                final(event)@,
            ),
    {
        events.event(self.handle, EventKind::MouseLeave)
    }

    /// Ends this owner. Its events end with it: all four lose their
    /// subscribers, and no other view's events change. Returns the native
    /// view whose reference is now to be released, once; the owner being
    /// gone, it cannot be released again.
    pub fn release(self, events: &mut EventRegistry) -> (handle: Handle)
        ensures
            handle == self@.handle,
            final(events)@ == EventRegistry::without(old(events)@, self@.handle),
    {
        events.remove(self.handle);
        self.handle
    }
}

} // verus!
