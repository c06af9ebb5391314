//! The life of one menu: opening it from a factory, moving focus into it,
//! and tearing it down on its dismiss event with focus handed back.
use vstd::prelude::*;
use crate::geometry::Bounds;

verus! {

/// A live menu, as the factory produced it: the entity that emits the
/// dismiss event and the focus handle it takes focus with.
#[derive(Clone, Copy, Debug, PartialEq, Eq, Structural)]
pub struct MenuInstance {
    pub entity: u64,
    pub focus_handle: u64,
}

/// The parts of the window this subsystem reads and changes: which focus
/// target holds focus, and whether a re-render was asked for.
#[derive(Clone, Copy, Debug, PartialEq, Eq, Structural)]
pub struct Window {
    pub focused: Option<u64>,
    pub refresh_requested: bool,
}

impl Window {
    pub fn new(focused: Option<u64>) -> (r: Window)
        ensures
            r.focused == focused,
            !r.refresh_requested,
    {
        Window { focused, refresh_requested: false }
    }
}

/// A menu in its slot, together with what its one-shot dismiss handler
/// remembers: the focus target that held focus before the menu was shown.
#[derive(Clone, Copy, Debug, PartialEq, Eq, Structural)]
pub struct OpenMenu {
    pub instance: MenuInstance,
    pub previous_focus: Option<u64>,
}

/// What one popover keeps from frame to frame: the menu slot and the
/// trigger's bounds as last measured.
#[derive(Clone, Copy, Debug, PartialEq, Eq, Structural)]
pub struct PopoverMenuElementState {
    pub menu: Option<OpenMenu>,
    pub child_bounds: Option<Bounds>,
}

impl Default for PopoverMenuElementState {
    fn default() -> (r: Self)
        ensures
            r.menu is None,
            r.child_bounds is None,
    {
        PopoverMenuElementState { menu: None, child_bounds: None }
    }
}

/// The focus after a menu's dismiss handler ran: if the menu still holds
/// focus, it goes back to the remembered target (when there is one);
/// otherwise it stays where it is.
pub open spec fn focus_after_dismiss(open: OpenMenu, focused: Option<u64>) -> Option<u64> {
    if focused == Some(open.instance.focus_handle) && open.previous_focus is Some {
        open.previous_focus
    } else {
        focused
    }
}

/// What showing does to a popover's state `s0` and the window `w0`: nothing
/// if a menu is open; otherwise the factory's result, if any, fills the slot,
/// takes focus and remembers who had it.
pub open spec fn shown<F: FnOnce() -> Option<MenuInstance>>(
    build: F,
    s0: PopoverMenuElementState,
    w0: Window,
    s1: PopoverMenuElementState,
    w1: Window,
) -> bool {
    &&& s1.child_bounds == s0.child_bounds
    &&& s0.menu is Some ==> s1 == s0 && w1 == w0
    &&& s0.menu is None ==> {
        let built = match s1.menu {
            Some(m) => Some(m.instance),
            None => None,
        };
        &&& build.ensures((), built)
        &&& s1.menu matches Some(m) ==> {
            &&& m.previous_focus == w0.focused
            &&& w1.focused == Some(m.instance.focus_handle)
            &&& w1.refresh_requested
        }
        &&& s1.menu is None ==> w1 == w0
    }
}

/// What hiding does: nothing if no menu is open; otherwise the dismiss
/// handler empties the slot and settles focus.
pub open spec fn hidden(
    s0: PopoverMenuElementState,
    w0: Window,
    s1: PopoverMenuElementState,
    w1: Window,
) -> bool {
    &&& s1.child_bounds == s0.child_bounds
    &&& s1.menu is None
    &&& s0.menu is None ==> s1 == s0 && w1 == w0
    &&& s0.menu matches Some(m) ==> {
        &&& w1.focused == focus_after_dismiss(m, w0.focused)
        &&& w1.refresh_requested
    }
}

/// Opens a menu in `state` unless one is already there. Only then is
/// `build` called; if it declines, nothing changes. Otherwise the menu takes
/// focus, remembers who had it, fills the slot and asks for a re-render.
pub fn show_menu<F: FnOnce() -> Option<MenuInstance>>(
    state: &mut PopoverMenuElementState,
    window: &mut Window,
    build: F,
)
    requires
        old(state).menu is None ==> build.requires(()),
    ensures
        shown(build, *old(state), *old(window), *final(state), *final(window)),
{
    if state.menu.is_some() {
        return ;
    }
    let built = build();
    match built {
        None => {},
        Some(instance) => {
            let previous_focus = window.focused;
            window.focused = Some(instance.focus_handle);
            state.menu = Some(OpenMenu { instance, previous_focus });
            window.refresh_requested = true;
        },
    }
}

/// The dismiss handler: runs once for the menu in the slot, gives focus
/// back if the menu still holds it, empties the slot and asks for a
/// re-render. With the slot empty there is no handler left, and nothing
/// happens.
pub fn dismiss_menu(state: &mut PopoverMenuElementState, window: &mut Window)
    ensures
        final(state).child_bounds == old(state).child_bounds,
        final(state).menu is None,
        old(state).menu is None ==> *final(window) == *old(window),
        old(state).menu matches Some(m) ==> {
            &&& final(window).focused == focus_after_dismiss(m, old(window).focused)
            &&& final(window).refresh_requested
        },
{
    match state.menu {
        None => {},
        Some(open) => {
            if window.focused == Some(open.instance.focus_handle) {
                if let Some(previous) = open.previous_focus {
                    window.focused = Some(previous);
                }
            }
            state.menu = None;
            window.refresh_requested = true;
        },
    }
}

/// Emits the dismiss event on the menu in the slot, if there is one; its
/// handler does the teardown.
pub fn hide_menu(state: &mut PopoverMenuElementState, window: &mut Window)
    ensures
        hidden(*old(state), *old(window), *final(state), *final(window)),
{
    if state.menu.is_some() {
        dismiss_menu(state, window);
    }
}

/// Hides an open menu, shows a closed one.
pub fn toggle_menu<F: FnOnce() -> Option<MenuInstance>>(
    state: &mut PopoverMenuElementState,
    window: &mut Window,
    build: F,
)
    requires
        old(state).menu is None ==> build.requires(()),
    ensures
        old(state).menu is Some ==> hidden(*old(state), *old(window), *final(state), *final(window)),
        old(state).menu is None ==> shown(build, *old(state), *old(window), *final(state), *final(window)),
{
    if state.menu.is_some() {
        hide_menu(state, window);
    } else {
        show_menu(state, window, build);
    }
}

/// The menu in the slot holds focus.
pub open spec fn menu_focused(state: PopoverMenuElementState, window: Window) -> bool {
    match state.menu {
        Some(m) => window.focused == Some(m.instance.focus_handle),
        None => false,
    }
}

pub fn menu_is_focused(state: &PopoverMenuElementState, window: &Window) -> (r: bool)
    ensures
        r == menu_focused(*state, *window),
{
    match state.menu {
        Some(m) => window.focused == Some(m.instance.focus_handle),
        None => false,
    }
}

/// Showing a second time, with no dismissal in between, changes nothing:
/// the menu the first showing left stays the only one, and focus moved once.
pub proof fn lemma_show_twice<F: FnOnce() -> Option<MenuInstance>, G: FnOnce() -> Option<MenuInstance>>(
    first: F,
    second: G,
    s0: PopoverMenuElementState,
    w0: Window,
    s1: PopoverMenuElementState,
    w1: Window,
    s2: PopoverMenuElementState,
    w2: Window,
)
    requires
        shown(first, s0, w0, s1, w1),
        s1.menu is Some,
        shown(second, s1, w1, s2, w2),
    ensures
        s2 == s1,
        w2 == w1,
{
}

/// Hiding a closed popover changes neither its state nor the window.
pub proof fn lemma_hide_closed(
    s0: PopoverMenuElementState,
    w0: Window,
    s1: PopoverMenuElementState,
    w1: Window,
)
    requires
        hidden(s0, w0, s1, w1),
        s0.menu is None,
    ensures
        s1 == s0,
        w1 == w0,
{
}

/// One toggle: hiding an open menu, showing a closed one.
pub open spec fn toggled<F: FnOnce() -> Option<MenuInstance>>(
    build: F,
    s0: PopoverMenuElementState,
    w0: Window,
    s1: PopoverMenuElementState,
    w1: Window,
) -> bool {
    &&& s0.menu is Some ==> hidden(s0, w0, s1, w1)
    &&& s0.menu is None ==> shown(build, s0, w0, s1, w1)
}

/// A factory that always produces a menu.
pub open spec fn always_builds<F: FnOnce() -> Option<MenuInstance>>(build: F) -> bool {
    forall|r: Option<MenuInstance>| #[trigger] build.ensures((), r) ==> r is Some
}

proof fn lemma_toggle_parity_at<F: FnOnce() -> Option<MenuInstance>>(
    build: F,
    states: Seq<PopoverMenuElementState>,
    windows: Seq<Window>,
    i: int,
)
    requires
        states.len() == windows.len(),
        0 <= i < states.len(),
        states[0].menu is None,
        always_builds(build),
        forall|k: int|
            0 <= k < states.len() - 1 ==> #[trigger] toggled(
                build,
                states[k],
                windows[k],
                states[k + 1],
                windows[k + 1],
            ),
    ensures
        states[i].menu is Some <==> i % 2 == 1,
    decreases i,
{
    if i > 0 {
        lemma_toggle_parity_at(build, states, windows, i - 1);
        let k = i - 1;
        assert(toggled(build, states[k], windows[k], states[k + 1], windows[k + 1]));
        assert(k + 1 == i);
        if states[i - 1].menu is None {
            let built = match states[i].menu {
                Some(m) => Some(m.instance),
                None => None,
            };
            assert(build.ensures((), built));
        }
    }
}

/// Starting closed, with a factory that always produces a menu, the popover
/// is open after `n` toggles exactly when `n` is odd. `states[n]` and
/// `windows[n]` are the popover and the window after `n` toggles.
pub proof fn lemma_toggle_parity<F: FnOnce() -> Option<MenuInstance>>(
    build: F,
    states: Seq<PopoverMenuElementState>,
    windows: Seq<Window>,
)
    requires
        states.len() == windows.len(),
        states.len() > 0,
        states[0].menu is None,
        always_builds(build),
        forall|k: int|
            0 <= k < states.len() - 1 ==> #[trigger] toggled(
                build,
                states[k],
                windows[k],
                states[k + 1],
                windows[k + 1],
            ),
    ensures
        forall|n: int| 0 <= n < states.len() ==> (#[trigger] states[n].menu is Some <==> n % 2 == 1),
{
    assert forall|n: int| 0 <= n < states.len() implies (#[trigger] states[n].menu is Some <==> n
        % 2 == 1) by {
        lemma_toggle_parity_at(build, states, windows, n);
    }
}

/// If target `f` has focus when a menu is shown, and the menu is dismissed
/// while it still holds focus, focus goes back to `f`; if focus moved
/// elsewhere first, dismissing leaves it there. `w2` is the window when the
/// dismissal happens.
pub proof fn lemma_focus_restored<F: FnOnce() -> Option<MenuInstance>>(
    build: F,
    f: u64,
    s0: PopoverMenuElementState,
    w0: Window,
    s1: PopoverMenuElementState,
    w1: Window,
    w2: Window,
    s3: PopoverMenuElementState,
    w3: Window,
)
    requires
        w0.focused == Some(f),
        s0.menu is None,
        shown(build, s0, w0, s1, w1),
        s1.menu is Some,
        hidden(s1, w2, s3, w3),
    ensures
        w2.focused == w1.focused ==> w3.focused == Some(f),
        w2.focused != w1.focused ==> w3.focused == w2.focused,
{
}

/// A step that leaves an open menu in place or clears the slot.
pub open spec fn keeps_or_clears(s0: PopoverMenuElementState, s1: PopoverMenuElementState) -> bool {
    s0.menu is Some ==> (s1.menu is None || s1.menu == s0.menu)
}

/// One step on a popover: showing with `build`, whether from the trigger or
/// from a handle bound to it, or hiding.
pub open spec fn menu_step<F: FnOnce() -> Option<MenuInstance>>(
    build: F,
    s0: PopoverMenuElementState,
    w0: Window,
    s1: PopoverMenuElementState,
    w1: Window,
) -> bool {
    shown(build, s0, w0, s1, w1) || hidden(s0, w0, s1, w1)
}

proof fn lemma_open_run<F: FnOnce() -> Option<MenuInstance>>(
    build: F,
    states: Seq<PopoverMenuElementState>,
    windows: Seq<Window>,
    i: int,
    j: int,
)
    requires
        states.len() == windows.len(),
        0 <= i <= j < states.len(),
        forall|k: int|
            0 <= k < states.len() - 1 ==> #[trigger] menu_step(
                build,
                states[k],
                windows[k],
                states[k + 1],
                windows[k + 1],
            ),
        forall|k: int| i <= k <= j ==> #[trigger] states[k].menu is Some,
    ensures
        states[j].menu == states[i].menu,
    decreases j - i,
{
    if j > i {
        lemma_open_run(build, states, windows, i, j - 1);
        let k = j - 1;
        assert(menu_step(build, states[k], windows[k], states[k + 1], windows[k + 1]));
        assert(k + 1 == j);
        assert(states[j - 1].menu is Some);
    }
}

/// However shows and hides from the trigger and from handles interleave, the
/// slot holds one menu at a time: each step keeps an open menu or clears the
/// slot, and over any run of steps during which the popover stays open it
/// holds the very menu it was opened with.
pub proof fn lemma_slot_exclusive<F: FnOnce() -> Option<MenuInstance>>(
    build: F,
    states: Seq<PopoverMenuElementState>,
    windows: Seq<Window>,
)
    requires
        states.len() == windows.len(),
        forall|k: int|
            0 <= k < states.len() - 1 ==> #[trigger] menu_step(
                build,
                states[k],
                windows[k],
                states[k + 1],
                windows[k + 1],
            ),
    ensures
        forall|k: int| 0 <= k < states.len() - 1 ==> #[trigger] keeps_or_clears(states[k], states[k + 1]),
        forall|i: int, j: int|
            0 <= i <= j < states.len() && (forall|k: int| i <= k <= j ==> #[trigger] states[k].menu is Some)
                ==> states[j].menu == states[i].menu,
{
    assert forall|k: int| 0 <= k < states.len() - 1 implies #[trigger] keeps_or_clears(states[k], states[k + 1]) by {
        assert(menu_step(build, states[k], windows[k], states[k + 1], windows[k + 1]));
    }
    assert forall|i: int, j: int|
        0 <= i <= j < states.len() && (forall|k: int| i <= k <= j ==> #[trigger] states[k].menu is Some)
            implies states[j].menu == states[i].menu by {
        lemma_open_run(build, states, windows, i, j);
    }
}

} // verus!
