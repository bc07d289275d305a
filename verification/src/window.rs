//! Windows.

use crate::context::Context;
use crate::handle::Handle;
use crate::handle::Node;
use crate::values::Color;
use crate::values::Length;
use vstd::prelude::*;

verus! {

/// A window as mathematics.
pub struct WindowState {
    /// The width it was made with.
    pub width: Length,
    /// The height it was made with.
    pub height: Length,
    /// The title.
    pub title: Seq<char>,
    /// Whether the user may resize it.
    pub resizable: bool,
    /// The background colour it was given; `None` while it has the platform's own.
    pub background: Option<Color>,
    /// The node that is its content; `None` while it has none.
    pub root: Option<Handle>,
    /// Whether it was asked to show itself.
    pub shown: bool,
}

impl WindowState {
    /// A window of the given size on which no setter was called: resizable,
    /// with the empty title, the platform's background, no content, not shown.
    pub open spec fn initial(width: Length, height: Length) -> WindowState {
        WindowState {
            width,
            height,
            title: Seq::empty(),
            resizable: true,
            background: None,
            root: None,
            shown: false,
        }
    }
}

/// One window.
pub struct Window {
    width: Length,
    height: Length,
    title: String,
    resizable: bool,
    background: Option<Color>,
    root: Option<Handle>,
    shown: bool,
}

impl View for Window {
    type V = WindowState;

    closed spec fn view(&self) -> WindowState {
        WindowState {
            width: self.width,
            height: self.height,
            title: self.title@,
            resizable: self.resizable,
            background: self.background,
            root: self.root,
            shown: self.shown,
        }
    }
}

impl Window {
    /// Makes sure that the process-wide context exists, then makes a window
    /// of the given size in its initial state.
    ///
    /// Returns the window, and whether the context is to be allocated before
    /// the native window is: `true` where it did not exist before this call.
    pub fn new(ctx: &mut Context, width: Length, height: Length) -> (made: (Window, bool))
        ensures
            made.0@ == WindowState::initial(width, height),
            made.1 == !old(ctx).is_created(),
            final(ctx).is_created(),
            *final(ctx) == old(ctx).ensured(),
    {
        let allocate = ctx.ensure_exists();
        let window = Window {
            width,
            height,
            title: String::new(),
            resizable: true,
            background: None,
            root: None,
            shown: false,
        };
        (window, allocate)
    }

    /// Moves the window to the front and shows it. Shown once, it stays shown.
    pub fn show(&mut self)
        ensures
            final(self)@ == (WindowState { shown: true, ..old(self)@ }),
    {
        self.shown = true;
    }

    /// Sets whether the window is resizable.
    pub fn set_resizable(&mut self, resizable: bool)
        ensures
            final(self)@ == (WindowState { resizable, ..old(self)@ }),
    {
        self.resizable = resizable;
    }

    /// Sets the title of the window.
    pub fn set_title(&mut self, title: &str)
        ensures
            final(self)@ == (WindowState { title: title@, ..old(self)@ }),
    {
        self.title = title.to_owned();
    }

    /// Sets the background colour of the window.
    pub fn set_background_color(&mut self, color: Color)
        ensures
            final(self)@ == (WindowState { background: Some(color), ..old(self)@ }),
    {
        self.background = Some(color);
    }

    /// Makes `node` the content of the window, in place of any it had.
    pub fn set_root<N: Node>(&mut self, node: &N)
        ensures
            final(self)@ == (WindowState { root: Some(node.handle_spec()), ..old(self)@ }),
    {
        self.root = Some(node.handle());
    }

    /// The width the window was made with.
    pub fn width(&self) -> (width: Length)
        ensures
            width == self@.width,
    {
        self.width
    }

    /// The height the window was made with.
    pub fn height(&self) -> (height: Length)
        ensures
            height == self@.height,
    {
        self.height
    }

    /// The title of the window.
    pub fn title(&self) -> (title: &str)
        ensures
            title@ == self@.title,
    {
        self.title.as_str()
    }

    /// Whether the window is resizable.
    pub fn is_resizable(&self) -> (resizable: bool)
        ensures
            resizable == self@.resizable,
    {
        self.resizable
    }

    /// The background colour the window was given, if it was given one.
    pub fn background_color(&self) -> (color: Option<Color>)
        ensures
            color == self@.background,
    {
        self.background
    }

    /// The node that is the content of the window, if it has one.
    pub fn root(&self) -> (root: Option<Handle>)
        ensures
            root == self@.root,
    {
        self.root
    }

    /// Whether the window was asked to show itself.
    pub fn is_shown(&self) -> (shown: bool)
        ensures
            shown == self@.shown,
    {
        self.shown
    }
}

} // verus!
