//! A model of a small native GUI layer: windows, views, the layout tree that
//! shadows the native view tree, and per-view mouse events.
//!
//! The library decides and records; it does not talk to the platform. The
//! platform layer allocates native objects, hands their handles in, sends
//! what the library's state says, and reports back what the native side did.

pub mod context;
pub mod event;
pub mod handle;
pub mod layout;
pub mod tree;
pub mod values;
pub mod view;
pub mod window;

pub use crate::context::Context;
pub use crate::event::Event;
pub use crate::event::EventKind;
pub use crate::event::EventRegistry;
pub use crate::event::Subscriber;
pub use crate::handle::Handle;
pub use crate::handle::Node;
pub use crate::layout::LayoutTree;
pub use crate::tree::NodeTree;
pub use crate::tree::TreeInsertionFailed;
pub use crate::values::Color;
pub use crate::values::Length;
pub use crate::view::View;
pub use crate::window::Window;
