use viewkit::Color;
use viewkit::EventRegistry;
use viewkit::Handle;
use viewkit::Length;
use viewkit::Node;
use viewkit::Subscriber;
use viewkit::View;

#[test]
fn new_view_has_its_handle_and_no_style() {
    let view = View::new(Handle { raw: 42 });
    assert_eq!(view.handle(), Handle { raw: 42 });
    assert_eq!(view.background_color(), None);
    assert_eq!(view.corner_radius(), None);
}

#[test]
fn handle_is_stable() {
    let mut view = View::new(Handle { raw: 42 });
    view.set_background_color(Color { argb: 1 });
    view.set_corner_radius(Length { bits: 2 });
    assert_eq!(view.handle(), Handle { raw: 42 });
    assert_eq!(view.handle(), view.handle());
}

#[test]
fn set_background_color_changes_the_color_only() {
    let mut view = View::new(Handle { raw: 1 });
    view.set_background_color(Color { argb: 0x80_ff0000 });
    assert_eq!(view.background_color(), Some(Color { argb: 0x80_ff0000 }));
    assert_eq!(view.corner_radius(), None);
    view.set_background_color(Color { argb: 0 });
    assert_eq!(view.background_color(), Some(Color { argb: 0 }));
}

#[test]
fn set_corner_radius_changes_the_radius_only() {
    let mut view = View::new(Handle { raw: 1 });
    view.set_corner_radius(Length { bits: 2.5f32.to_bits() });
    assert_eq!(view.corner_radius().map(|r| f32::from_bits(r.bits)), Some(2.5));
    assert_eq!(view.background_color(), None);
    view.set_corner_radius(Length { bits: 0.0f32.to_bits() });
    assert_eq!(view.corner_radius(), Some(Length { bits: 0 }));
}

#[test]
fn release_names_the_view_and_ends_its_events() {
    let mut events = EventRegistry::new();
    let mut gone = View::new(Handle { raw: 1 });
    let mut stays = View::new(Handle { raw: 2 });
    gone.mouse_down(&mut events).subscribe(Subscriber { id: 1 });
    gone.mouse_leave(&mut events).subscribe(Subscriber { id: 2 });
    stays.mouse_down(&mut events).subscribe(Subscriber { id: 3 });
    assert_eq!(gone.release(&mut events), Handle { raw: 1 });
    assert_eq!(events.dispatch(Handle { raw: 1 }, "MouseDown"), Some(vec![]));
    assert_eq!(events.dispatch(Handle { raw: 1 }, "MouseLeave"), Some(vec![]));
    assert_eq!(events.dispatch(Handle { raw: 2 }, "MouseDown"), Some(vec![Subscriber { id: 3 }]));
}

#[test]
fn release_of_a_view_without_events() {
    let mut events = EventRegistry::new();
    let view = View::new(Handle { raw: 9 });
    assert_eq!(view.release(&mut events), Handle { raw: 9 });
    assert_eq!(events.dispatch(Handle { raw: 9 }, "MouseUp"), Some(vec![]));
}

fn crosses_threads<T: Send + Sync>() {}

#[test]
fn a_view_may_cross_threads() {
    crosses_threads::<View>();
}

/// A stand-in for the platform: it counts the references to each native view.
struct Platform {
    references: std::cell::RefCell<std::collections::HashMap<u64, i64>>,
    events: std::cell::RefCell<EventRegistry>,
}

impl Platform {
    fn new() -> Platform {
        Platform {
            references: std::cell::RefCell::new(std::collections::HashMap::new()),
            events: std::cell::RefCell::new(EventRegistry::new()),
        }
    }

    fn references(&self, raw: u64) -> i64 {
        *self.references.borrow().get(&raw).unwrap_or(&0)
    }
}

/// An owner that releases on every way out of scope.
struct Owned<'a> {
    view: Option<View>,
    platform: &'a Platform,
}

impl<'a> Owned<'a> {
    fn new(platform: &'a Platform, raw: u64) -> Owned<'a> {
        *platform.references.borrow_mut().entry(raw).or_insert(0) += 1;
        Owned { view: Some(View::new(Handle { raw })), platform }
    }
}

impl Drop for Owned<'_> {
    fn drop(&mut self) {
        if let Some(view) = self.view.take() {
            let released = view.release(&mut self.platform.events.borrow_mut());
            *self.platform.references.borrow_mut().entry(released.raw).or_insert(0) -= 1;
        }
    }
}

fn leaves_early(platform: &Platform, early: bool) -> Result<u32, ()> {
    let _owned = Owned::new(platform, 5);
    assert_eq!(platform.references(5), 2);
    if early {
        return Err(());
    }
    Ok(1)
}

#[test]
fn an_owner_gives_up_one_reference_on_every_way_out() {
    let platform = Platform::new();
    {
        let _outer = Owned::new(&platform, 5);
        assert_eq!(platform.references(5), 1);

        assert_eq!(leaves_early(&platform, false), Ok(1));
        assert_eq!(platform.references(5), 1);

        assert_eq!(leaves_early(&platform, true), Err(()));
        assert_eq!(platform.references(5), 1);
    }
    assert_eq!(platform.references(5), 0);
}

#[test]
fn a_handle_is_a_node() {
    let handle = Handle { raw: 77 };
    assert_eq!(handle.handle(), Handle { raw: 77 });
}
