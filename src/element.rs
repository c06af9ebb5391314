//! The popover menu element: configured afresh every frame, it lays out its
//! trigger and, while a menu is open, the menu as an overlay anchored to
//! where the trigger was last seen; after painting it keeps a press on the
//! trigger from closing and at once reopening the menu.
use vstd::prelude::*;
use crate::anchor::{
    anchor_position_spec, default_attach, default_attach_spec, default_offset,
    default_offset_spec, overlay_bounds, overlay_bounds_spec, reachable, resolve_anchor_position,
    OVERLAY_PRIORITY, WINDOW_MARGIN,
};
use crate::geometry::{AnchorCorner, Bounds, Point, Size, COORD_LIMIT};
use crate::menu::{hidden, hide_menu, show_menu, shown, MenuInstance, PopoverMenuElementState, Window};
use crate::registry::{PopoverMenuHandle, PopoverStore};

verus! {

/// An element that can open the menu: it is shown selected while the menu
/// is open.
pub trait PopoverTrigger: Sized {
    fn selected(self, selected: bool) -> Self;
}

/// `position` lies on the trigger's hitbox, if there is one.
pub open spec fn pressed_on(hitbox: Option<Bounds>, position: Point) -> bool {
    match hitbox {
        Some(h) => h.contains_spec(position),
        None => false,
    }
}

/// A popover's configuration for one frame. `F` builds the menu.
pub struct PopoverMenu<T, F> {
    pub id: u64,
    pub trigger: Option<T>,
    pub menu_builder: Option<F>,
    /// The corner of the menu placed at the attachment point.
    pub anchor: AnchorCorner,
    /// The corner of the trigger the menu attaches to.
    pub attach: Option<AnchorCorner>,
    pub offset: Option<Point>,
    pub trigger_handle: Option<PopoverMenuHandle>,
    pub full_width: bool,
}

/// The overlay as laid out this frame: the open menu, the corner it is
/// anchored by, where that corner goes (nothing before the trigger was first
/// measured) and its paint priority.
#[derive(Clone, Copy, Debug, PartialEq, Eq, Structural)]
pub struct MenuOverlay {
    pub menu: MenuInstance,
    pub anchor: AnchorCorner,
    pub position: Option<Point>,
    pub priority: usize,
}

/// What one frame's layout hands to prepaint and paint.
pub struct PopoverMenuFrameState<T> {
    pub child_element: Option<T>,
    /// The trigger is drawn selected: the menu is open.
    pub child_selected: bool,
    /// The trigger opens the menu when clicked.
    pub child_clickable: bool,
    pub menu_element: Option<MenuOverlay>,
    /// The element stretches to the available width.
    pub full_width: bool,
}

/// Installed by paint while the menu is shown: a press on the trigger
/// dismisses the menu and goes no further.
#[derive(Clone, Copy, Debug, PartialEq, Eq, Structural)]
pub struct TriggerPressListener {
    pub popover: u64,
    pub hitbox: Bounds,
}

impl MenuOverlay {
    /// Where the menu is painted once its size and the window are known:
    /// its anchor corner at the attachment point (or at `fallback`, where the
    /// overlay was laid out, while there is none), kept the window margin
    /// inside the window.
    pub fn placed_bounds(&self, fallback: Point, size: Size, viewport: &Bounds) -> (r: Bounds)
        requires
            self.position matches Some(p) ==> reachable(p),
            fallback.wf(),
            size.wf(),
            viewport.wf(),
        ensures
            r == overlay_bounds_spec(self.anchor, self.position, fallback, size, *viewport, WINDOW_MARGIN),
    {
        overlay_bounds(self.anchor, self.position, fallback, size, viewport, WINDOW_MARGIN)
    }
}

#[derive(Clone, Copy, Debug, PartialEq, Eq, Structural)]
pub enum DispatchPhase {
    Capture,
    Bubble,
}

impl<T: PopoverTrigger, F: Fn() -> Option<MenuInstance>> PopoverMenu<T, F> {
    pub fn new(id: u64) -> (r: Self)
        ensures
            r.id == id,
            r.trigger is None,
            r.menu_builder is None,
            r.anchor == AnchorCorner::TopLeft,
            r.attach is None,
            r.offset is None,
            r.trigger_handle is None,
            !r.full_width,
    {
        PopoverMenu {
            id,
            trigger: None,
            menu_builder: None,
            anchor: AnchorCorner::TopLeft,
            attach: None,
            offset: None,
            trigger_handle: None,
            full_width: false,
        }
    }

    pub fn full_width(self, full_width: bool) -> (r: Self)
        ensures
            r == (PopoverMenu { full_width, ..self }),
    {
        let mut r = self;
        r.full_width = full_width;
        r
    }

    /// The factory that builds the menu when it is shown.
    pub fn menu(self, f: F) -> (r: Self)
        ensures
            r == (PopoverMenu { menu_builder: Some(f), ..self }),
    {
        let mut r = self;
        r.menu_builder = Some(f);
        r
    }

    /// A handle that outside code uses to reach this popover's menu.
    pub fn with_handle(self, handle: PopoverMenuHandle) -> (r: Self)
        ensures
            r == (PopoverMenu { trigger_handle: Some(handle), ..self }),
    {
        let mut r = self;
        r.trigger_handle = Some(handle);
        r
    }

    pub fn trigger(self, t: T) -> (r: Self)
        ensures
            r == (PopoverMenu { trigger: Some(t), ..self }),
    {
        let mut r = self;
        r.trigger = Some(t);
        r
    }

    /// Which corner of the menu goes to the attachment point.
    pub fn anchor(self, anchor: AnchorCorner) -> (r: Self)
        ensures
            r == (PopoverMenu { anchor, ..self }),
    {
        let mut r = self;
        r.anchor = anchor;
        r
    }

    /// Which corner of the trigger the menu's anchor corner attaches to.
    pub fn attach(self, attach: AnchorCorner) -> (r: Self)
        ensures
            r == (PopoverMenu { attach: Some(attach), ..self }),
    {
        let mut r = self;
        r.attach = Some(attach);
        r
    }

    /// Moves the menu by `offset` pixels from the attachment point.
    pub fn offset(self, offset: Point) -> (r: Self)
        ensures
            r == (PopoverMenu { offset: Some(offset), ..self }),
    {
        let mut r = self;
        r.offset = Some(offset);
        r
    }

    /// The corner of the trigger the menu attaches to: the configured one, or
    /// the default for the anchor corner.
    pub open spec fn attach_spec(&self) -> AnchorCorner {
        match self.attach {
            Some(a) => a,
            None => default_attach_spec(self.anchor),
        }
    }

    /// The offset from the attachment point: the configured one, or
    /// `padding` pixels outward.
    pub open spec fn offset_spec(&self, padding: i64) -> Point {
        match self.offset {
            Some(o) => o,
            None => default_offset_spec(self.anchor, padding),
        }
    }

    pub fn resolved_attach(&self) -> (r: AnchorCorner)
        ensures
            r == self.attach_spec(),
    {
        match self.attach {
            Some(a) => a,
            None => default_attach(self.anchor),
        }
    }

    pub fn resolved_offset(&self, padding: i64) -> (r: Point)
        requires
            0 <= padding <= COORD_LIMIT,
            self.offset matches Some(o) ==> o.wf(),
        ensures
            r == self.offset_spec(padding),
            r.wf(),
    {
        match self.offset {
            Some(o) => o,
            None => default_offset(self.anchor, padding),
        }
    }

    /// The menu's attachment point this frame, from the trigger's bounds as
    /// last measured.
    pub open spec fn position_spec(&self, padding: i64, child_bounds: Option<Bounds>) -> Option<Point> {
        anchor_position_spec(self.attach_spec(), self.offset_spec(padding), child_bounds)
    }

    /// The configuration this frame's layout may rely on.
    pub open spec fn wf(&self) -> bool {
        self.offset matches Some(o) ==> o.wf()
    }

    /// First pass of a frame. Looks up (or creates) the popover's state; if a
    /// menu is open, lays it out as an overlay anchored to where the trigger
    /// was last measured; builds the trigger, selected while the menu is
    /// open; and binds the external handle, if one was given and a menu
    /// factory is configured.
    pub fn request_layout(&mut self, store: &mut PopoverStore, padding: i64) -> (r:
        PopoverMenuFrameState<T>)
        requires
            old(self).wf(),
            0 <= padding <= COORD_LIMIT,
            old(store).wf(),
            old(self).trigger_handle matches Some(h) ==> old(store).has_handle(h),
            old(store).state_spec(old(self).id).child_bounds matches Some(b) ==> b.wf(),
        ensures
            final(store).wf(),
            final(store)@ == old(store)@.insert(old(self).id, old(store).state_spec(old(self).id)),
            final(self).trigger is None,
            final(self).trigger_handle is None,
            final(self).id == old(self).id,
            final(self).menu_builder == old(self).menu_builder,
            final(self).anchor == old(self).anchor,
            final(self).attach == old(self).attach,
            final(self).offset == old(self).offset,
            final(self).full_width == old(self).full_width,
            ({
                let state = old(store).state_spec(old(self).id);
                &&& r.menu_element is Some <==> state.menu is Some
                &&& state.menu matches Some(m) ==> r.menu_element == Some(
                    MenuOverlay {
                        menu: m.instance,
                        anchor: old(self).anchor,
                        position: old(self).position_spec(padding, state.child_bounds),
                        priority: OVERLAY_PRIORITY,
                    },
                )
                &&& r.child_selected == (state.menu is Some)
            }),
            r.menu_element matches Some(o) ==> (o.position matches Some(p) ==> reachable(p)),
            r.child_element is Some == old(self).trigger is Some,
            r.child_clickable == old(self).menu_builder is Some,
            r.full_width == old(self).full_width,
            old(self).trigger_handle matches Some(h) ==> old(self).menu_builder is Some
                ==> final(store).bindings() == old(store).bindings().update(h.slot(), Some(old(self).id)),
            !(old(self).trigger_handle is Some && old(self).menu_builder is Some)
                ==> final(store).bindings() == old(store).bindings(),
    {
        let state = store.state(self.id);
        let menu_element = match state.menu {
            Some(open) => {
                let attach = self.resolved_attach();
                let offset = self.resolved_offset(padding);
                let position = resolve_anchor_position(attach, offset, state.child_bounds);
                Some(
                    MenuOverlay {
                        menu: open.instance,
                        anchor: self.anchor,
                        position,
                        priority: OVERLAY_PRIORITY,
                    },
                )
            },
            None => None,
        };
        let open = state.menu.is_some();
        let child_element = match self.trigger.take() {
            Some(t) => Some(t.selected(open)),
            None => None,
        };
        if let Some(handle) = self.trigger_handle.take() {
            if self.menu_builder.is_some() {
                store.bind(handle, self.id);
            }
        }
        PopoverMenuFrameState {
            child_element,
            child_selected: open,
            child_clickable: self.menu_builder.is_some(),
            menu_element,
            full_width: self.full_width,
        }
    }

    /// Second pass: once the trigger's bounds are known (`measured`), keeps
    /// them for the next frame's anchoring and returns them as the trigger's
    /// hitbox. Without a trigger there is nothing to measure.
    pub fn prepaint(&self, store: &mut PopoverStore, frame: &PopoverMenuFrameState<T>, measured: Bounds) -> (hitbox: Option<Bounds>)
        requires
            old(store).wf(),
            measured.wf(),
        ensures
            final(store).wf(),
            final(store).bindings() == old(store).bindings(),
            frame.child_element is None ==> hitbox is None && final(store)@ == old(store)@,
            frame.child_element is Some ==> {
                &&& hitbox == Some(measured)
                &&& final(store)@ == old(store)@.insert(
                    self.id,
                    PopoverMenuElementState { child_bounds: Some(measured), ..old(store).state_spec(self.id) },
                )
            },
    {
        if frame.child_element.is_some() {
            let mut state = store.state(self.id);
            state.child_bounds = Some(measured);
            store.put(self.id, state);
            proof {
                assert(final(store)@ =~= old(store)@.insert(
                    self.id,
                    PopoverMenuElementState { child_bounds: Some(measured), ..old(store).state_spec(self.id) },
                ));
            }
            Some(measured)
        } else {
            None
        }
    }

    /// Last pass: while the menu is shown over a measured trigger, installs
    /// the listener that turns a press on the trigger into a dismissal.
    pub fn paint(&self, frame: &PopoverMenuFrameState<T>, hitbox: Option<Bounds>) -> (r: Option<TriggerPressListener>)
        ensures
            r is Some <==> (frame.menu_element is Some && hitbox is Some),
            r matches Some(l) ==> l.popover == self.id && hitbox == Some(l.hitbox),
    {
        match (frame.menu_element, hitbox) {
            (Some(_), Some(h)) => Some(TriggerPressListener { popover: self.id, hitbox: h }),
            _ => None,
        }
    }

    /// The trigger was clicked: shows the menu with the configured factory.
    pub fn click_trigger(&self, store: &mut PopoverStore, window: &mut Window)
        requires
            old(store).wf(),
            self.menu_builder matches Some(f) ==> f.requires(()),
        ensures
            final(store).wf(),
            final(store).bindings() == old(store).bindings(),
            self.menu_builder is None ==> final(store)@ == old(store)@ && *final(window) == *old(window),
            self.menu_builder matches Some(f) ==> {
                &&& final(store)@ == old(store)@.insert(self.id, final(store)@[self.id])
                &&& shown(f, old(store).state_spec(self.id), *old(window), final(store)@[self.id], *final(window))
            },
    {
        match &self.menu_builder {
            None => {},
            Some(f) => {
                let mut state = store.state(self.id);
                show_menu(&mut state, window, f);
                store.put(self.id, state);
            },
        }
    }

    /// One press at `position`, dispatched as the window does: first the
    /// capture phase, where an open menu that closes on presses outside it
    /// dismisses itself (`menu_dismisses`); then the bubble phase, where the
    /// listener installed by paint, if any, handles it before the trigger's
    /// own click does. A press on the trigger while the menu was shown thus
    /// leaves the menu closed.
    pub fn dispatch_press(
        &self,
        store: &mut PopoverStore,
        window: &mut Window,
        listener: Option<TriggerPressListener>,
        hitbox: Option<Bounds>,
        position: Point,
        menu_dismisses: bool,
    )
        requires
            old(store).wf(),
            self.menu_builder matches Some(f) ==> f.requires(()),
            hitbox matches Some(h) ==> h.wf(),
            listener matches Some(l) ==> l.popover == self.id && hitbox == Some(l.hitbox),
        ensures
            final(store).wf(),
            final(store).bindings() == old(store).bindings(),
            final(store)@.dom() == old(store)@.dom().insert(self.id) || final(store)@ == old(store)@,
            listener matches Some(l) ==> l.hitbox.contains_spec(position) ==> final(store).state_spec(
                self.id,
            ).menu is None,
            menu_dismisses ==> (final(store).state_spec(self.id).menu is None || (listener is None
                && pressed_on(hitbox, position))),
            (!menu_dismisses && !pressed_on(hitbox, position)) ==> final(store)@ == old(store)@
                && *final(window) == *old(window),
            (listener is None && !menu_dismisses && self.menu_builder is Some && pressed_on(
                hitbox,
                position,
            )) ==> shown(
                self.menu_builder->Some_0,
                old(store).state_spec(self.id),
                *old(window),
                final(store).state_spec(self.id),
                *final(window),
            ),
    {
        if menu_dismisses {
            let mut state = store.state(self.id);
            hide_menu(&mut state, window);
            store.put(self.id, state);
        }
        let mut stop = false;
        if let Some(l) = listener {
            stop = l.on_mouse_down(store, window, position, DispatchPhase::Bubble);
        }
        if !stop {
            if let Some(h) = hitbox {
                if h.contains(&position) {
                    self.click_trigger(store, window);
                }
            }
        }
    }
}

impl TriggerPressListener {
    /// Handles a press at `position` in `phase`; returns whether the press
    /// goes no further. In the bubble phase, a press on the trigger emits the
    /// dismiss event on the open menu, if any, and stops there.
    pub fn on_mouse_down(
        &self,
        store: &mut PopoverStore,
        window: &mut Window,
        position: Point,
        phase: DispatchPhase,
    ) -> (stop: bool)
        requires
            old(store).wf(),
            self.hitbox.wf(),
        ensures
            final(store).wf(),
            final(store).bindings() == old(store).bindings(),
            stop == (phase is Bubble && self.hitbox.contains_spec(position)),
            !stop ==> final(store)@ == old(store)@ && *final(window) == *old(window),
            stop ==> {
                &&& final(store)@ == old(store)@.insert(self.popover, final(store)@[self.popover])
                &&& hidden(old(store).state_spec(self.popover), *old(window), final(store)@[self.popover], *final(window))
            },
    {
        match phase {
            DispatchPhase::Capture => false,
            DispatchPhase::Bubble => {
                if self.hitbox.contains(&position) {
                    let mut state = store.state(self.popover);
                    hide_menu(&mut state, window);
                    store.put(self.popover, state);
                    true
                } else {
                    false
                }
            },
        }
    }
}

} // verus!
