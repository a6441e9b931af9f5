use std::collections::HashMap;
use vstd::prelude::*;

verus! {

broadcast use vstd::std_specs::hash::group_hash_axioms;

/// One submenu as a mathematical value: how many entries were appended to
/// it, and which of its entries carry a callback.
pub struct MenuView<C> {
    pub size: nat,
    pub callbacks: Map<u32, C>,
}

impl<C> MenuView<C> {
    /// A submenu that nothing was appended to.
    pub open spec fn empty() -> Self {
        MenuView { size: 0, callbacks: Map::empty() }
    }

    /// The submenu after an entry without a callback was appended.
    pub open spec fn with_slot(self) -> Self {
        MenuView { size: self.size + 1, callbacks: self.callbacks }
    }

    /// The submenu after the entry `item_id`, bound to `f`, was appended.
    pub open spec fn with_item(self, item_id: u32, f: C) -> Self {
        MenuView { size: self.size + 1, callbacks: self.callbacks.insert(item_id, f) }
    }

    /// The submenu with `f` bound to `item_id`, its entries as they were.
    pub open spec fn with_callback(self, item_id: u32, f: C) -> Self {
        MenuView { size: self.size, callbacks: self.callbacks.insert(item_id, f) }
    }

    /// The submenu with nothing bound to `item_id`, its entries as they were.
    pub open spec fn without_callback(self, item_id: u32) -> Self {
        MenuView { size: self.size, callbacks: self.callbacks.remove(item_id) }
    }
}

/// One submenu: the number of entries appended so far, which is the position
/// of the next one, and the callbacks of its clickable entries.
pub struct MenuData<C> {
    size: u32,
    callbacks: HashMap<u32, C>,
}

impl<C> View for MenuData<C> {
    type V = MenuView<C>;

    closed spec fn view(&self) -> MenuView<C> {
        MenuView { size: self.size as nat, callbacks: self.callbacks@ }
    }
}

impl<C> MenuData<C> {
    pub fn new() -> (menu: Self)
        ensures
            menu@ == MenuView::<C>::empty(),
    {
        MenuData { size: 0, callbacks: HashMap::new() }
    }

    /// The position at which the next entry will be appended.
    pub fn size(&self) -> (size: u32)
        ensures
            size == self@.size,
    {
        self.size
    }

    /// Whether the entry `item_id` of this submenu carries a callback.
    pub fn has_callback(&self, item_id: u32) -> (bound: bool)
        ensures
            bound == self@.callbacks.contains_key(item_id),
    {
        self.callbacks.contains_key(&item_id)
    }

    /// Appends an entry without a callback: a group's entry or a separator.
    pub fn push_slot(&mut self)
        requires
            old(self)@.size < u32::MAX,
        ensures
            final(self)@ == old(self)@.with_slot(),
    {
        self.size = self.size + 1;
    }

    /// Appends the clickable entry `item_id` and binds `f` to it.
    pub fn push_item(&mut self, item_id: u32, f: C)
        requires
            old(self)@.size < u32::MAX,
        ensures
            final(self)@ == old(self)@.with_item(item_id, f),
    {
        self.callbacks.insert(item_id, f);
        self.size = self.size + 1;
    }

    /// Takes the callback of `item_id` out of the submenu, if it has one.
    pub fn take_callback(&mut self, item_id: u32) -> (taken: Option<C>)
        ensures
            taken == (if old(self)@.callbacks.contains_key(item_id) {
                Some(old(self)@.callbacks[item_id])
            } else {
                None
            }),
            final(self)@ == old(self)@.without_callback(item_id),
    {
        self.callbacks.remove(&item_id)
    }

    /// Binds `f` to `item_id`, in place of what was bound to it, if anything.
    pub fn put_callback(&mut self, item_id: u32, f: C)
        ensures
            final(self)@ == old(self)@.with_callback(item_id, f),
    {
        self.callbacks.insert(item_id, f);
    }
}

} // verus!
