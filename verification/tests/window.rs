use viewkit::Color;
use viewkit::Context;
use viewkit::Handle;
use viewkit::Length;
use viewkit::View;
use viewkit::Window;

fn points(value: f32) -> Length {
    Length { bits: value.to_bits() }
}

fn window(ctx: &mut Context) -> Window {
    Window::new(ctx, points(800.0), points(600.0)).0
}

#[test]
fn new_window_has_default_state() {
    let mut ctx = Context::new();
    let w = window(&mut ctx);
    assert!(w.is_resizable());
    assert_eq!(w.title(), "");
    assert_eq!(w.background_color(), None);
    assert_eq!(w.root(), None);
    assert!(!w.is_shown());
}

#[test]
fn new_window_keeps_its_size_bit_for_bit() {
    let mut ctx = Context::new();
    let (w, _) = Window::new(&mut ctx, points(800.5), points(0.1));
    assert_eq!(f32::from_bits(w.width().bits), 800.5);
    assert_eq!(f32::from_bits(w.height().bits), 0.1);
    assert_eq!(w.width(), Length { bits: 0x4448_2000 });
}

#[test]
fn first_window_has_the_context_allocated() {
    let mut ctx = Context::new();
    assert!(!ctx.is_created());
    let (_w, allocate) = Window::new(&mut ctx, points(800.0), points(600.0));
    assert!(allocate);
    assert!(ctx.is_created());
}

#[test]
fn later_windows_find_the_context() {
    let mut ctx = Context::new();
    let mut allocations = 0;
    for _ in 0..10 {
        let (_w, allocate) = Window::new(&mut ctx, points(800.0), points(600.0));
        if allocate {
            allocations += 1;
        }
        assert!(ctx.is_created());
    }
    assert_eq!(allocations, 1);
    assert!(!ctx.ensure_exists());
}

#[test]
fn window_after_explicit_ensure_does_not_allocate_again() {
    let mut ctx = Context::new();
    assert!(ctx.ensure_exists());
    let (_w, allocate) = Window::new(&mut ctx, points(800.0), points(600.0));
    assert!(!allocate);
    assert!(!ctx.ensure_exists());
}

#[test]
fn set_title_changes_the_title_only() {
    let mut ctx = Context::new();
    let mut w = window(&mut ctx);
    w.set_title("Main");
    assert_eq!(w.title(), "Main");
    assert!(w.is_resizable());
    assert_eq!(w.background_color(), None);
    assert_eq!(w.root(), None);
    assert!(!w.is_shown());
    assert_eq!(w.width(), points(800.0));
    assert_eq!(w.height(), points(600.0));
}

#[test]
fn set_title_replaces_the_title() {
    let mut ctx = Context::new();
    let mut w = window(&mut ctx);
    w.set_title("one");
    w.set_title("zwei \u{00e4}\u{1f600}");
    assert_eq!(w.title(), "zwei \u{00e4}\u{1f600}");
    w.set_title("");
    assert_eq!(w.title(), "");
}

#[test]
fn set_resizable_changes_resizability_only() {
    let mut ctx = Context::new();
    let mut w = window(&mut ctx);
    w.set_title("t");
    w.set_resizable(false);
    assert!(!w.is_resizable());
    assert_eq!(w.title(), "t");
    w.set_resizable(true);
    assert!(w.is_resizable());
}

#[test]
fn set_background_color_records_the_color() {
    let mut ctx = Context::new();
    let mut w = window(&mut ctx);
    w.set_background_color(Color { argb: 0xff_e6e6e6 });
    assert_eq!(w.background_color(), Some(Color { argb: 0xff_e6e6e6 }));
    w.set_background_color(Color { argb: 0 });
    assert_eq!(w.background_color(), Some(Color { argb: 0 }));
    assert!(w.is_resizable());
    assert_eq!(w.title(), "");
}

#[test]
fn show_is_idempotent() {
    let mut ctx = Context::new();
    let mut w = window(&mut ctx);
    w.show();
    assert!(w.is_shown());
    w.show();
    assert!(w.is_shown());
    assert!(w.is_resizable());
    assert_eq!(w.title(), "");
}

#[test]
fn set_root_overwrites_the_root() {
    let mut ctx = Context::new();
    let mut w = window(&mut ctx);
    let a = View::new(Handle { raw: 11 });
    let b = View::new(Handle { raw: 12 });
    w.set_root(&a);
    assert_eq!(w.root(), Some(Handle { raw: 11 }));
    w.set_root(&b);
    assert_eq!(w.root(), Some(Handle { raw: 12 }));
    w.set_root(&b);
    assert_eq!(w.root(), Some(Handle { raw: 12 }));
    assert_eq!(w.title(), "");
}
