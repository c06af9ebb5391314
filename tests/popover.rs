use popover_menu::anchor::{
    default_attach, default_offset, overlay_bounds, resolve_anchor_position, shrink,
    snap_to_window, OVERLAY_PRIORITY, WINDOW_MARGIN,
};
use popover_menu::canvas::{canvas, Style};
use popover_menu::element::{DispatchPhase, PopoverMenu, PopoverTrigger, TriggerPressListener};
use popover_menu::geometry::{point, size, AnchorCorner, Bounds};
use popover_menu::menu::{
    dismiss_menu, hide_menu, menu_is_focused, show_menu, toggle_menu, MenuInstance,
    PopoverMenuElementState, Window,
};
use popover_menu::registry::PopoverStore;
use std::cell::Cell;

#[derive(Debug, PartialEq)]
struct Button {
    selected: bool,
}

impl PopoverTrigger for Button {
    fn selected(self, selected: bool) -> Self {
        Button { selected }
    }
}

fn menu_a() -> MenuInstance {
    MenuInstance { entity: 10, focus_handle: 100 }
}

fn menu_b() -> MenuInstance {
    MenuInstance { entity: 11, focus_handle: 101 }
}

fn rect(x: i64, y: i64, w: i64, h: i64) -> Bounds {
    Bounds::new(point(x, y), size(w, h))
}

#[test]
fn anchor_resolution_example() {
    let trigger = Some(rect(100, 100, 50, 20));
    let p = resolve_anchor_position(AnchorCorner::BottomLeft, point(-8, 0), trigger);
    assert_eq!(p, Some(point(92, 120)));
}

#[test]
fn anchor_resolution_through_layout() {
    let mut store = PopoverStore::new();
    let mut window = Window::new(Some(1));
    let mut state = store.state(7);
    show_menu(&mut state, &mut window, || Some(menu_a()));
    state.child_bounds = Some(rect(100, 100, 50, 20));
    store.put(7, state);
    let mut popover = PopoverMenu::new(7)
        .trigger(Button { selected: false })
        .menu(|| Some(menu_a()))
        .anchor(AnchorCorner::TopLeft)
        .attach(AnchorCorner::BottomLeft)
        .offset(point(-8, 0));
    let frame = popover.request_layout(&mut store, 5);
    let overlay = frame.menu_element.unwrap();
    assert_eq!(overlay.position, Some(point(92, 120)));
    assert_eq!(overlay.anchor, AnchorCorner::TopLeft);
    assert_eq!(overlay.priority, OVERLAY_PRIORITY);
    assert_eq!(overlay.menu, menu_a());
    assert_eq!(frame.child_element, Some(Button { selected: true }));
    assert!(frame.child_clickable);
}

#[test]
fn anchor_without_measured_trigger() {
    assert_eq!(resolve_anchor_position(AnchorCorner::BottomLeft, point(-8, 0), None), None);
}

#[test]
fn default_attach_is_diagonal() {
    assert_eq!(default_attach(AnchorCorner::TopLeft), AnchorCorner::BottomRight);
    assert_eq!(default_attach(AnchorCorner::TopRight), AnchorCorner::BottomLeft);
    assert_eq!(default_attach(AnchorCorner::BottomLeft), AnchorCorner::TopRight);
    assert_eq!(default_attach(AnchorCorner::BottomRight), AnchorCorner::TopLeft);
}

#[test]
fn default_offset_points_outward() {
    assert_eq!(default_offset(AnchorCorner::TopLeft, 5), point(-5, 0));
    assert_eq!(default_offset(AnchorCorner::BottomLeft, 5), point(-5, 0));
    assert_eq!(default_offset(AnchorCorner::TopRight, 5), point(5, 0));
    assert_eq!(default_offset(AnchorCorner::BottomRight, 5), point(5, 0));
}

#[test]
fn resolved_defaults_on_popover() {
    let popover: PopoverMenu<Button, fn() -> Option<MenuInstance>> =
        PopoverMenu::new(1).anchor(AnchorCorner::TopRight);
    assert_eq!(popover.resolved_attach(), AnchorCorner::BottomLeft);
    assert_eq!(popover.resolved_offset(5), point(5, 0));
    let popover = popover.attach(AnchorCorner::TopLeft).offset(point(3, 4));
    assert_eq!(popover.resolved_attach(), AnchorCorner::TopLeft);
    assert_eq!(popover.resolved_offset(5), point(3, 4));
}

#[test]
fn corner_points() {
    let b = rect(10, 20, 30, 40);
    assert_eq!(AnchorCorner::TopLeft.corner(&b), point(10, 20));
    assert_eq!(AnchorCorner::TopRight.corner(&b), point(40, 20));
    assert_eq!(AnchorCorner::BottomLeft.corner(&b), point(10, 60));
    assert_eq!(AnchorCorner::BottomRight.corner(&b), point(40, 60));
}

#[test]
fn bounds_contains_edges() {
    let b = rect(0, 0, 10, 10);
    assert!(b.contains(&point(0, 0)));
    assert!(b.contains(&point(9, 9)));
    assert!(!b.contains(&point(10, 5)));
    assert!(!b.contains(&point(5, 10)));
    assert!(!b.contains(&point(-1, 5)));
}

#[test]
fn viewport_clamping_shifts_by_overflow() {
    let viewport = rect(0, 0, 800, 600);
    let limits = shrink(&viewport, WINDOW_MARGIN);
    assert_eq!(limits, rect(8, 8, 784, 584));
    // Right edge at 850 overruns the limit 792 by 58.
    let snapped = snap_to_window(&rect(750, 100, 100, 50), &limits);
    assert_eq!(snapped, rect(692, 100, 100, 50));
    // Bottom edge at 620 overruns 592 by 28.
    let snapped = snap_to_window(&rect(100, 570, 100, 50), &limits);
    assert_eq!(snapped, rect(100, 542, 100, 50));
    // Left and top edges before the margin move in to it.
    let snapped = snap_to_window(&rect(-20, 3, 100, 50), &limits);
    assert_eq!(snapped, rect(8, 8, 100, 50));
    // Inside already: unchanged.
    let snapped = snap_to_window(&rect(100, 100, 100, 50), &limits);
    assert_eq!(snapped, rect(100, 100, 100, 50));
}

#[test]
fn oversized_overlay_starts_at_margin() {
    let limits = shrink(&rect(0, 0, 100, 100), 8);
    let snapped = snap_to_window(&rect(50, 50, 200, 200), &limits);
    assert_eq!(snapped, rect(8, 8, 200, 200));
}

#[test]
fn shrink_tiny_viewport() {
    assert_eq!(shrink(&rect(0, 0, 10, 30), 8), rect(8, 8, 0, 14));
}

#[test]
fn overlay_bounds_anchor_corners() {
    let viewport = rect(0, 0, 800, 600);
    let s = size(100, 50);
    let b = overlay_bounds(AnchorCorner::TopLeft, Some(point(92, 120)), point(0, 0), s, &viewport, 8);
    assert_eq!(b, rect(92, 120, 100, 50));
    let b = overlay_bounds(AnchorCorner::BottomRight, Some(point(300, 300)), point(0, 0), s, &viewport, 8);
    assert_eq!(b, rect(200, 250, 100, 50));
    let b = overlay_bounds(AnchorCorner::TopLeft, None, point(40, 60), s, &viewport, 8);
    assert_eq!(b, rect(40, 60, 100, 50));
    let b = overlay_bounds(AnchorCorner::TopLeft, Some(point(780, 10)), point(0, 0), s, &viewport, 8);
    assert_eq!(b, rect(692, 10, 100, 50));
}

#[test]
fn show_twice_keeps_one_menu() {
    let mut state = PopoverMenuElementState::default();
    let mut window = Window::new(Some(1));
    show_menu(&mut state, &mut window, || Some(menu_a()));
    assert_eq!(state.menu.unwrap().instance, menu_a());
    assert_eq!(window.focused, Some(100));
    let calls = Cell::new(0);
    show_menu(&mut state, &mut window, || {
        calls.set(calls.get() + 1);
        Some(menu_b())
    });
    assert_eq!(calls.get(), 0);
    assert_eq!(state.menu.unwrap().instance, menu_a());
    assert_eq!(state.menu.unwrap().previous_focus, Some(1));
    assert_eq!(window.focused, Some(100));
}

#[test]
fn show_with_declining_factory() {
    let mut state = PopoverMenuElementState::default();
    let mut window = Window::new(Some(1));
    show_menu(&mut state, &mut window, || None);
    assert!(state.menu.is_none());
    assert_eq!(window, Window::new(Some(1)));
}

#[test]
fn hide_closed_is_noop() {
    let mut state = PopoverMenuElementState::default();
    let mut window = Window::new(Some(1));
    hide_menu(&mut state, &mut window);
    assert_eq!(state, PopoverMenuElementState::default());
    assert_eq!(window, Window::new(Some(1)));
    dismiss_menu(&mut state, &mut window);
    assert_eq!(window, Window::new(Some(1)));
}

#[test]
fn toggle_parity() {
    let mut state = PopoverMenuElementState::default();
    let mut window = Window::new(Some(1));
    for n in 1..=7 {
        toggle_menu(&mut state, &mut window, || Some(menu_a()));
        assert_eq!(state.menu.is_some(), n % 2 == 1);
    }
}

#[test]
fn focus_restored_when_menu_still_focused() {
    let mut state = PopoverMenuElementState::default();
    let mut window = Window::new(Some(42));
    show_menu(&mut state, &mut window, || Some(menu_a()));
    assert!(menu_is_focused(&state, &window));
    hide_menu(&mut state, &mut window);
    assert_eq!(window.focused, Some(42));
    assert!(window.refresh_requested);
}

#[test]
fn focus_left_alone_when_moved() {
    let mut state = PopoverMenuElementState::default();
    let mut window = Window::new(Some(42));
    show_menu(&mut state, &mut window, || Some(menu_a()));
    window.focused = Some(7);
    assert!(!menu_is_focused(&state, &window));
    hide_menu(&mut state, &mut window);
    assert_eq!(window.focused, Some(7));
    assert!(state.menu.is_none());
}

#[test]
fn focus_without_previous_target() {
    let mut state = PopoverMenuElementState::default();
    let mut window = Window::new(None);
    show_menu(&mut state, &mut window, || Some(menu_a()));
    hide_menu(&mut state, &mut window);
    assert_eq!(window.focused, Some(100));
}

fn render<F: Fn() -> Option<MenuInstance>>(
    popover: &mut PopoverMenu<Button, F>,
    store: &mut PopoverStore,
    measured: Bounds,
) -> (Option<Bounds>, Option<TriggerPressListener>) {
    let frame = popover.request_layout(store, 5);
    let hitbox = popover.prepaint(store, &frame, measured);
    let listener = popover.paint(&frame, hitbox);
    (hitbox, listener)
}

#[test]
fn press_on_trigger_while_open_closes() {
    let mut store = PopoverStore::new();
    let mut window = Window::new(Some(1));
    let trigger = rect(100, 100, 50, 20);
    let mut popover = PopoverMenu::new(3).trigger(Button { selected: false }).menu(|| Some(menu_a()));
    // Closed frame: no listener; a press on the trigger opens the menu.
    let (hitbox, listener) = render(&mut popover, &mut store, trigger);
    assert_eq!(hitbox, Some(trigger));
    assert!(listener.is_none());
    popover.dispatch_press(&mut store, &mut window, listener, hitbox, point(110, 110), false);
    assert!(store.get(3).unwrap().menu.is_some());
    // Open frame: the listener is installed.
    let mut popover = PopoverMenu::new(3).trigger(Button { selected: false }).menu(|| Some(menu_a()));
    let (hitbox, listener) = render(&mut popover, &mut store, trigger);
    assert_eq!(listener, Some(TriggerPressListener { popover: 3, hitbox: trigger }));
    // The menu dismisses itself on the outside press, and the trigger's
    // click must not reopen it.
    popover.dispatch_press(&mut store, &mut window, listener, hitbox, point(110, 110), true);
    assert!(store.get(3).unwrap().menu.is_none());
    assert_eq!(window.focused, Some(1));
}

#[test]
fn press_on_trigger_without_self_dismissal_closes() {
    let mut store = PopoverStore::new();
    let mut window = Window::new(Some(1));
    let trigger = rect(0, 0, 40, 40);
    let mut popover = PopoverMenu::new(4).trigger(Button { selected: false }).menu(|| Some(menu_a()));
    popover.click_trigger(&mut store, &mut window);
    let (hitbox, listener) = render(&mut popover, &mut store, trigger);
    popover.dispatch_press(&mut store, &mut window, listener, hitbox, point(5, 5), false);
    assert!(store.get(4).unwrap().menu.is_none());
}

#[test]
fn press_elsewhere_leaves_menu_open() {
    let mut store = PopoverStore::new();
    let mut window = Window::new(Some(1));
    let trigger = rect(0, 0, 40, 40);
    let mut popover = PopoverMenu::new(4).trigger(Button { selected: false }).menu(|| Some(menu_a()));
    popover.click_trigger(&mut store, &mut window);
    let (hitbox, listener) = render(&mut popover, &mut store, trigger);
    popover.dispatch_press(&mut store, &mut window, listener, hitbox, point(100, 100), false);
    assert_eq!(store.get(4).unwrap().menu.unwrap().instance, menu_a());
}

#[test]
fn listener_ignores_capture_phase() {
    let mut store = PopoverStore::new();
    let mut window = Window::new(Some(1));
    let listener = TriggerPressListener { popover: 9, hitbox: rect(0, 0, 10, 10) };
    let mut state = store.state(9);
    show_menu(&mut state, &mut window, || Some(menu_a()));
    store.put(9, state);
    assert!(!listener.on_mouse_down(&mut store, &mut window, point(1, 1), DispatchPhase::Capture));
    assert!(store.get(9).unwrap().menu.is_some());
    assert!(listener.on_mouse_down(&mut store, &mut window, point(1, 1), DispatchPhase::Bubble));
    assert!(store.get(9).unwrap().menu.is_none());
}

#[test]
fn trigger_bounds_recorded_for_next_frame() {
    let mut store = PopoverStore::new();
    let mut popover: PopoverMenu<Button, fn() -> Option<MenuInstance>> =
        PopoverMenu::new(5).trigger(Button { selected: false });
    let frame = popover.request_layout(&mut store, 5);
    assert!(frame.menu_element.is_none());
    assert_eq!(frame.child_element, Some(Button { selected: false }));
    assert!(!frame.child_clickable);
    assert!(!frame.full_width);
    assert_eq!(store.get(5).unwrap().child_bounds, None);
    popover.prepaint(&mut store, &frame, rect(1, 2, 3, 4));
    assert_eq!(store.get(5).unwrap().child_bounds, Some(rect(1, 2, 3, 4)));
}

#[test]
fn no_trigger_no_hitbox() {
    let mut store = PopoverStore::new();
    let mut popover: PopoverMenu<Button, fn() -> Option<MenuInstance>> =
        PopoverMenu::new(5).full_width(true);
    let frame = popover.request_layout(&mut store, 5);
    assert!(frame.full_width);
    assert_eq!(popover.prepaint(&mut store, &frame, rect(1, 2, 3, 4)), None);
    assert_eq!(store.get(5).unwrap().child_bounds, None);
}

#[test]
fn handle_controls_bound_popover() {
    let mut store = PopoverStore::new();
    let mut window = Window::new(Some(1));
    let handle = store.new_handle();
    let copy = handle;
    assert!(!handle.is_deployed(&store));
    let mut popover = PopoverMenu::new(8)
        .trigger(Button { selected: false })
        .menu(|| Some(menu_a()))
        .with_handle(handle);
    popover.request_layout(&mut store, 5);
    assert_eq!(store.handle_binding(copy), Some(8));
    copy.show(&mut store, &mut window, || Some(menu_a()));
    assert!(handle.is_deployed(&store));
    assert!(handle.is_focused(&store, &window));
    handle.show(&mut store, &mut window, || Some(menu_b()));
    assert_eq!(store.get(8).unwrap().menu.unwrap().instance, menu_a());
    handle.toggle(&mut store, &mut window, || Some(menu_b()));
    assert!(!copy.is_deployed(&store));
    assert_eq!(window.focused, Some(1));
    handle.toggle(&mut store, &mut window, || Some(menu_b()));
    assert_eq!(store.get(8).unwrap().menu.unwrap().instance, menu_b());
    handle.dismiss(&mut store, &mut window);
    assert!(!handle.is_deployed(&store));
    assert!(!handle.is_focused(&store, &window));
}

#[test]
fn unbound_handle_does_nothing() {
    let mut store = PopoverStore::new();
    let mut window = Window::new(Some(1));
    let handle = store.new_handle();
    handle.show(&mut store, &mut window, || Some(menu_a()));
    handle.toggle(&mut store, &mut window, || Some(menu_a()));
    handle.dismiss(&mut store, &mut window);
    assert!(!handle.is_deployed(&store));
    assert!(!handle.is_focused(&store, &window));
    assert_eq!(window, Window::new(Some(1)));
    assert_eq!(store.get(0), None);
}

#[test]
fn handle_not_bound_without_factory() {
    let mut store = PopoverStore::new();
    let handle = store.new_handle();
    let mut popover: PopoverMenu<Button, fn() -> Option<MenuInstance>> =
        PopoverMenu::new(2).trigger(Button { selected: false }).with_handle(handle);
    popover.request_layout(&mut store, 5);
    assert_eq!(store.handle_binding(handle), None);
}

#[test]
fn slot_exclusive_across_paths() {
    let mut store = PopoverStore::new();
    let mut window = Window::new(Some(1));
    let handle = store.new_handle();
    let mut popover = PopoverMenu::new(6)
        .trigger(Button { selected: false })
        .menu(|| Some(menu_a()))
        .with_handle(handle);
    popover.request_layout(&mut store, 5);
    popover.click_trigger(&mut store, &mut window);
    handle.show(&mut store, &mut window, || Some(menu_b()));
    popover.click_trigger(&mut store, &mut window);
    assert_eq!(store.get(6).unwrap().menu.unwrap().instance, menu_a());
    assert_eq!(store.get(6).unwrap().menu.unwrap().previous_focus, Some(1));
}

#[test]
fn store_keeps_popovers_apart() {
    let mut store = PopoverStore::new();
    let mut window = Window::new(None);
    let mut a = store.state(1);
    show_menu(&mut a, &mut window, || Some(menu_a()));
    store.put(1, a);
    let b = store.state(2);
    assert!(b.menu.is_none());
    assert!(store.get(1).unwrap().menu.is_some());
    assert_eq!(store.get(3), None);
}

#[test]
fn canvas_runs_callbacks_in_order() {
    let seen = Cell::new(0i64);
    let mut c = canvas(|b: Bounds| b.size.width * 2, |b: Bounds, t: i64| seen.set(t + b.origin.x));
    assert_eq!(c.request_layout(), Style::default());
    c.style().width = Some(30);
    assert_eq!(c.request_layout(), Style { width: Some(30), height: None });
    let bounds = rect(5, 0, 21, 7);
    let mut state = c.prepaint(bounds);
    assert_eq!(state, Some(42));
    c.paint(bounds, &mut state);
    assert_eq!(seen.get(), 47);
    assert_eq!(state, None);
}

#[test]
fn overlay_placed_inside_window() {
    let mut store = PopoverStore::new();
    let mut window = Window::new(None);
    let mut state = store.state(12);
    show_menu(&mut state, &mut window, || Some(menu_a()));
    state.child_bounds = Some(rect(700, 500, 60, 20));
    store.put(12, state);
    let mut popover = PopoverMenu::new(12)
        .trigger(Button { selected: false })
        .menu(|| Some(menu_a()))
        .anchor(AnchorCorner::TopLeft)
        .attach(AnchorCorner::BottomLeft)
        .offset(point(-8, 0));
    let frame = popover.request_layout(&mut store, 5);
    let overlay = frame.menu_element.unwrap();
    assert_eq!(overlay.position, Some(point(692, 520)));
    let placed = overlay.placed_bounds(point(0, 0), size(200, 100), &rect(0, 0, 800, 600));
    assert_eq!(placed, rect(592, 492, 200, 100));
}
