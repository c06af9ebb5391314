//! Cross-frame state of every popover, keyed by the popover's element id,
//! and the external handles that reach a popover's menu from outside the
//! element tree.
use vstd::prelude::*;
use crate::menu::{
    hidden, hide_menu, menu_focused, menu_is_focused, show_menu, shown, MenuInstance,
    PopoverMenuElementState, Window,
};

verus! {

#[derive(Clone, Copy, Debug, PartialEq, Eq, Structural)]
pub struct PopoverEntry {
    pub id: u64,
    pub state: PopoverMenuElementState,
}

/// Every popover's state, created the first time its id is looked up and
/// never removed; and for each handle, the popover it was bound to, if any.
pub struct PopoverStore {
    entries: Vec<PopoverEntry>,
    handles: Vec<Option<u64>>,
}

/// A reference to one popover's menu that outside code holds. Copies of a
/// handle share its binding, which lives in the store.
#[derive(Clone, Copy, Debug, PartialEq, Eq, Structural)]
pub struct PopoverMenuHandle {
    index: usize,
}

impl PopoverMenuHandle {
    pub closed spec fn slot(&self) -> int {
        self.index as int
    }
}

impl PopoverStore {
    /// No two entries share an id.
    pub closed spec fn wf(&self) -> bool {
        forall|i: int, j: int|
            0 <= i < self.entries@.len() && 0 <= j < self.entries@.len() && i != j
                ==> self.entries@[i].id != self.entries@[j].id
    }

    /// The state kept under each id.
    pub closed spec fn view(&self) -> Map<u64, PopoverMenuElementState> {
        Map::new(
            |id: u64| exists|i: int| 0 <= i < self.entries@.len() && self.entries@[i].id == id,
            |id: u64|
                self.entries@[choose|i: int|
                    0 <= i < self.entries@.len() && self.entries@[i].id == id].state,
        )
    }

    /// The popover each handle is bound to.
    pub closed spec fn bindings(&self) -> Seq<Option<u64>> {
        self.handles@
    }

    /// `h` was made by this store.
    pub open spec fn has_handle(&self, h: PopoverMenuHandle) -> bool {
        0 <= h.slot() < self.bindings().len()
    }

    /// The popover `h` is bound to.
    pub open spec fn binding(&self, h: PopoverMenuHandle) -> Option<u64> {
        self.bindings()[h.slot()]
    }

    /// The state of `id`, or the fresh state it would be created with.
    pub open spec fn state_spec(&self, id: u64) -> PopoverMenuElementState {
        if self@.contains_key(id) {
            self@[id]
        } else {
            PopoverMenuElementState { menu: None, child_bounds: None }
        }
    }

    proof fn lemma_entry(&self, i: int)
        requires
            self.wf(),
            0 <= i < self.entries@.len(),
        ensures
            self@.contains_key(self.entries@[i].id),
            self@[self.entries@[i].id] == self.entries@[i].state,
    {
        let id = self.entries@[i].id;
        assert(self@.contains_key(id));
        let k = choose|k: int| 0 <= k < self.entries@.len() && self.entries@[k].id == id;
        assert(k == i);
    }

    pub fn new() -> (r: PopoverStore)
        ensures
            r.wf(),
            r@ == Map::<u64, PopoverMenuElementState>::empty(),
            r.bindings() == Seq::<Option<u64>>::empty(),
    {
        let r = PopoverStore { entries: Vec::new(), handles: Vec::new() };
        assert(r@ =~= Map::<u64, PopoverMenuElementState>::empty());
        r
    }

    fn find(&self, id: u64) -> (r: Option<usize>)
        requires
            self.wf(),
        ensures
            r matches Some(i) ==> i < self.entries@.len() && self.entries@[i as int].id == id,
            r is None <==> !self@.contains_key(id),
    {
        let mut i: usize = 0;
        while i < self.entries.len()
            invariant
                i <= self.entries@.len(),
                forall|k: int| 0 <= k < i ==> self.entries@[k].id != id,
            decreases self.entries@.len() - i,
        {
            if self.entries[i].id == id {
                return Some(i);
            }
            i = i + 1;
        }
        None
    }

    /// The state kept under `id`, if the popover was ever looked up.
    pub fn get(&self, id: u64) -> (r: Option<PopoverMenuElementState>)
        requires
            self.wf(),
        ensures
            r == (if self@.contains_key(id) { Some(self@[id]) } else { None }),
    {
        match self.find(id) {
            Some(i) => {
                proof {
                    self.lemma_entry(i as int);
                }
                Some(self.entries[i].state)
            },
            None => None,
        }
    }

    /// The state of `id`, created empty on first use.
    pub fn state(&mut self, id: u64) -> (r: PopoverMenuElementState)
        requires
            old(self).wf(),
        ensures
            final(self).wf(),
            r == old(self).state_spec(id),
            final(self)@ == old(self)@.insert(id, r),
            final(self).bindings() == old(self).bindings(),
    {
        match self.find(id) {
            Some(i) => {
                proof {
                    self.lemma_entry(i as int);
                    assert(self@.insert(id, self@[id]) =~= self@);
                }
                self.entries[i].state
            },
            None => {
                let fresh = PopoverMenuElementState { menu: None, child_bounds: None };
                let ghost before = self.entries@;
                self.entries.push(PopoverEntry { id, state: fresh });
                proof {
                    let n = before.len() as int;
                    assert(self.entries@[n].id == id);
                    assert forall|k: u64| #[trigger] self@.contains_key(k) == old(self)@.insert(id, fresh).contains_key(k) by {
                        if k != id && self@.contains_key(k) {
                            let j = choose|j: int| 0 <= j < self.entries@.len() && self.entries@[j].id == k;
                            assert(j < n);
                            assert(before[j].id == k);
                        }
                        if old(self)@.contains_key(k) {
                            let j = choose|j: int| 0 <= j < before.len() && before[j].id == k;
                            assert(self.entries@[j].id == k);
                        }
                    }
                    assert forall|k: u64| #[trigger] self@.contains_key(k) implies self@[k] == old(self)@.insert(id, fresh)[k] by {
                        let j = choose|j: int| 0 <= j < self.entries@.len() && self.entries@[j].id == k;
                        self.lemma_entry(j);
                        if k != id {
                            assert(j < n);
                            old(self).lemma_entry(j);
                        }
                    }
                    assert(self@ =~= old(self)@.insert(id, fresh));
                }
                fresh
            },
        }
    }

    /// Stores `state` under `id`, creating the entry if needed.
    pub fn put(&mut self, id: u64, state: PopoverMenuElementState)
        requires
            old(self).wf(),
        ensures
            final(self).wf(),
            final(self)@ == old(self)@.insert(id, state),
            final(self).bindings() == old(self).bindings(),
    {
        let _ = self.state(id);
        let ghost mid = self@;
        match self.find(id) {
            Some(i) => {
                let ghost before = self.entries@;
                self.entries.set(i, PopoverEntry { id, state });
                proof {
                    assert forall|a: int, b: int|
                        0 <= a < self.entries@.len() && 0 <= b < self.entries@.len() && a != b
                            implies self.entries@[a].id != self.entries@[b].id by {
                        assert(before[a].id == self.entries@[a].id);
                        assert(before[b].id == self.entries@[b].id);
                    }
                    assert forall|k: u64| #[trigger] self@.contains_key(k) == mid.insert(id, state).contains_key(k) by {
                        if self@.contains_key(k) {
                            let j = choose|j: int| 0 <= j < self.entries@.len() && self.entries@[j].id == k;
                            assert(before[j].id == k);
                        }
                        if mid.contains_key(k) {
                            let j = choose|j: int| 0 <= j < before.len() && before[j].id == k;
                            assert(self.entries@[j].id == k);
                        }
                    }
                    assert forall|k: u64| #[trigger] self@.contains_key(k) implies self@[k] == mid.insert(id, state)[k] by {
                        let j = choose|j: int| 0 <= j < self.entries@.len() && self.entries@[j].id == k;
                        self.lemma_entry(j);
                        if k != id {
                            assert(j != i);
                            assert(before[j] == self.entries@[j]);
                        }
                    }
                    assert(self@ =~= mid.insert(id, state));
                    assert(mid.insert(id, state) =~= old(self)@.insert(id, state));
                }
            },
            None => {},
        }
    }

    /// A new handle, bound to nothing yet.
    pub fn new_handle(&mut self) -> (r: PopoverMenuHandle)
        ensures
            final(self).wf() == old(self).wf(),
            final(self)@ == old(self)@,
            final(self).bindings() == old(self).bindings().push(None),
            r.slot() == old(self).bindings().len(),
    {
        let index = self.handles.len();
        self.handles.push(None);
        PopoverMenuHandle { index }
    }

    /// Points `handle`, and every copy of it, at popover `id`.
    pub fn bind(&mut self, handle: PopoverMenuHandle, id: u64)
        requires
            old(self).has_handle(handle),
        ensures
            final(self).wf() == old(self).wf(),
            final(self)@ == old(self)@,
            final(self).bindings() == old(self).bindings().update(handle.slot(), Some(id)),
    {
        self.handles.set(handle.index, Some(id));
    }

    pub fn handle_binding(&self, handle: PopoverMenuHandle) -> (r: Option<u64>)
        requires
            self.has_handle(handle),
        ensures
            r == self.binding(handle),
    {
        self.handles[handle.index]
    }
}

impl PopoverMenuHandle {
    /// A menu is open in the popover this handle is bound to.
    pub open spec fn deployed(&self, store: &PopoverStore) -> bool {
        match store.binding(*self) {
            Some(id) => store@.contains_key(id) && store@[id].menu is Some,
            None => false,
        }
    }

    /// Shows the bound popover's menu, built by `build`, unless one is open.
    /// An unbound handle does nothing.
    pub fn show<F: FnOnce() -> Option<MenuInstance>>(
        &self,
        store: &mut PopoverStore,
        window: &mut Window,
        build: F,
    )
        requires
            old(store).wf(),
            old(store).has_handle(*self),
            build.requires(()),
        ensures
            final(store).wf(),
            final(store).bindings() == old(store).bindings(),
            old(store).binding(*self) is None ==> final(store)@ == old(store)@ && *final(window)
                == *old(window),
            old(store).binding(*self) matches Some(id) ==> {
                &&& final(store)@.dom() == old(store)@.dom().insert(id)
                &&& final(store)@ == old(store)@.insert(id, final(store)@[id])
                &&& shown(build, old(store).state_spec(id), *old(window), final(store)@[id], *final(window))
            },
    {
        match store.handle_binding(*self) {
            None => {},
            Some(id) => {
                let mut state = store.state(id);
                show_menu(&mut state, window, build);
                store.put(id, state);
                proof {
                    assert(final(store)@.dom() =~= old(store)@.dom().insert(id));
                }
            },
        }
    }

    /// Emits the dismiss event on the bound popover's open menu, if any.
    pub fn dismiss(&self, store: &mut PopoverStore, window: &mut Window)
        requires
            old(store).wf(),
            old(store).has_handle(*self),
        ensures
            final(store).wf(),
            final(store).bindings() == old(store).bindings(),
            !self.deployed(old(store)) ==> final(store)@ == old(store)@ && *final(window)
                == *old(window),
            old(store).binding(*self) matches Some(id) ==> old(store)@.contains_key(id) ==> {
                &&& final(store)@ == old(store)@.insert(id, final(store)@[id])
                &&& hidden(old(store).state_spec(id), *old(window), final(store)@[id], *final(window))
            },
    {
        match store.handle_binding(*self) {
            None => {},
            Some(id) => {
                match store.get(id) {
                    Some(state) => {
                        if state.menu.is_some() {
                            let mut state = state;
                            hide_menu(&mut state, window);
                            store.put(id, state);
                        } else {
                            proof {
                                assert(store@.insert(id, store@[id]) =~= store@);
                            }
                        }
                    },
                    None => {},
                }
            },
        }
    }

    /// Hides the bound popover's menu if it is open, shows it otherwise.
    pub fn toggle<F: FnOnce() -> Option<MenuInstance>>(
        &self,
        store: &mut PopoverStore,
        window: &mut Window,
        build: F,
    )
        requires
            old(store).wf(),
            old(store).has_handle(*self),
            build.requires(()),
        ensures
            final(store).wf(),
            final(store).bindings() == old(store).bindings(),
            old(store).binding(*self) is None ==> final(store)@ == old(store)@ && *final(window)
                == *old(window),
            old(store).binding(*self) matches Some(id) ==> {
                &&& final(store)@.dom() == old(store)@.dom().insert(id)
                &&& final(store)@ == old(store)@.insert(id, final(store)@[id])
                &&& self.deployed(old(store)) ==> hidden(old(store).state_spec(id), *old(window), final(store)@[id], *final(window))
                &&& !self.deployed(old(store)) ==> shown(build, old(store).state_spec(id), *old(window), final(store)@[id], *final(window))
            },
    {
        if self.is_deployed(store) {
            self.dismiss(store, window);
        } else {
            self.show(store, window, build);
        }
    }

    pub fn is_deployed(&self, store: &PopoverStore) -> (r: bool)
        requires
            store.wf(),
            store.has_handle(*self),
        ensures
            r == self.deployed(store),
    {
        match store.handle_binding(*self) {
            None => false,
            Some(id) => match store.get(id) {
                Some(state) => state.menu.is_some(),
                None => false,
            },
        }
    }

    /// The bound popover has an open menu, and it holds focus.
    pub fn is_focused(&self, store: &PopoverStore, window: &Window) -> (r: bool)
        requires
            store.wf(),
            store.has_handle(*self),
        ensures
            r == (self.deployed(store) && menu_focused(store@[store.binding(*self)->Some_0], *window)),
    {
        match store.handle_binding(*self) {
            None => false,
            Some(id) => match store.get(id) {
                Some(state) => menu_is_focused(&state, window),
                None => false,
            },
        }
    }
}

} // verus!
