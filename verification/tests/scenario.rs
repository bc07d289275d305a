use viewkit::Context;
use viewkit::Handle;
use viewkit::Length;
use viewkit::Node;
use viewkit::NodeTree;
use viewkit::View;
use viewkit::Window;

#[test]
fn window_then_two_views_then_add() {
    let mut ctx = Context::new();
    let (mut window, allocate) = Window::new(
        &mut ctx,
        Length { bits: 800.0f32.to_bits() },
        Length { bits: 600.0f32.to_bits() },
    );
    assert!(allocate);
    window.set_title("Main");
    assert_eq!(window.title(), "Main");
    assert!(window.is_resizable());

    let mut tree = NodeTree::new();
    let a = View::new(Handle { raw: 1 });
    let b = View::new(Handle { raw: 2 });
    assert_eq!(a.add(&mut tree, &b, true), Ok(()));

    assert_eq!(tree.layout().child_count(a.handle()), 1);
    assert_eq!(tree.subview_count(a.handle()), 1);
    assert_eq!(tree.layout().child_at(a.handle(), 0), Some(b.handle()));
    assert_eq!(tree.subview_at(a.handle(), 0), Some(b.handle()));
}

#[test]
fn a_whole_window() {
    let mut ctx = Context::new();
    let mut tree = NodeTree::new();
    let (mut window, _) = Window::new(
        &mut ctx,
        Length { bits: 640.0f32.to_bits() },
        Length { bits: 480.0f32.to_bits() },
    );
    let root = View::new(Handle { raw: 100 });
    let left = View::new(Handle { raw: 101 });
    let right = View::new(Handle { raw: 102 });
    assert_eq!(root.add(&mut tree, &left, true), Ok(()));
    assert_eq!(root.add(&mut tree, &right, true), Ok(()));
    window.set_root(&root);
    window.show();

    assert_eq!(window.root(), Some(Handle { raw: 100 }));
    assert!(window.is_shown());
    assert_eq!(tree.subview_at(Handle { raw: 100 }, 0), Some(Handle { raw: 101 }));
    assert_eq!(tree.subview_at(Handle { raw: 100 }, 1), Some(Handle { raw: 102 }));
    assert_eq!(tree.layout().child_at(Handle { raw: 100 }, 1), Some(Handle { raw: 102 }));
}
