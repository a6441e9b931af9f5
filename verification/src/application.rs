use crate::error::SystrayError;
use crate::event::SystrayEvent;
use crate::laws::{
    lemma_dispatch_vacates, lemma_op_keeps_indexes_unique, lemma_quit_keeps_indexes_unique,
    lemma_restore_keeps_indexes_unique, MenuOp,
};
use crate::menu::{MenuData, MenuView};
use crate::request::{own_text, str_of, BackendRequest, RequestView};
use std::collections::HashMap;
use vstd::prelude::*;

verus! {

broadcast use vstd::std_specs::hash::group_hash_axioms;

/// What the dispatch loop does with one message from the event bridge.
pub enum Dispatch<C> {
    /// The loop ends: the bridge is closed, or the controller has quit.
    Stop,
    /// The event names no registered callback; the loop goes on.
    Ignored,
    /// The callback to invoke. It has left the menu tree, so that it may use
    /// the controller freely; `Application::restore_callback` puts it back.
    Invoke(C),
}

/// The controller as a mathematical value.
pub struct AppView<C> {
    /// The index that the next clickable entry or group will get.
    pub next_index: nat,
    /// The submenus by identifier; 0 is the root menu.
    pub menus: Map<u64, MenuView<C>>,
    /// Whether the dispatch loop still takes events.
    pub running: bool,
}

impl<C> AppView<C> {
    /// A controller that has just been set up: the root menu alone, empty.
    pub open spec fn initial() -> Self {
        AppView {
            next_index: 0,
            menus: Map::<u64, MenuView<C>>::empty().insert(0, MenuView::empty()),
            running: true,
        }
    }

    pub open spec fn has_menu(self, menu_id: u64) -> bool {
        self.menus.contains_key(menu_id)
    }

    /// Whether the index counter can issue one more index.
    pub open spec fn has_index_left(self) -> bool {
        self.next_index < u32::MAX
    }

    /// Whether one more entry can be appended to the submenu `menu_id`.
    pub open spec fn has_room(self, menu_id: u64) -> bool {
        self.menus[menu_id].size < u32::MAX
    }

    /// The controller after a clickable entry bound to `f` was appended to
    /// the submenu `submenu`, under the next index.
    pub open spec fn with_item(self, submenu: u64, f: C) -> Self {
        AppView {
            next_index: self.next_index + 1,
            menus: self.menus.insert(
                submenu,
                self.menus[submenu].with_item(self.next_index as u32, f),
            ),
            running: self.running,
        }
    }

    /// The controller after the group `issued` was appended to the submenu
    /// `submenu`: the group starts empty, whatever `issued` named before, and
    /// its entry takes the next index and a position in `submenu`.
    pub open spec fn with_group(self, submenu: u64, issued: u64) -> Self {
        let grown = self.menus.insert(issued, MenuView::empty());
        AppView {
            next_index: self.next_index + 1,
            menus: grown.insert(submenu, grown[submenu].with_slot()),
            running: self.running,
        }
    }

    /// The controller after a separator was appended to `submenu`: it takes
    /// a position and no index.
    pub open spec fn with_separator(self, submenu: u64) -> Self {
        AppView {
            next_index: self.next_index,
            menus: self.menus.insert(submenu, self.menus[submenu].with_slot()),
            running: self.running,
        }
    }

    /// The callback that `event` names, if its submenu exists and binds one
    /// to its entry.
    pub open spec fn callback(self, event: SystrayEvent) -> Option<C> {
        if self.has_menu(event.menu_id) && self.menus[event.menu_id].callbacks.contains_key(
            event.item_id,
        ) {
            Some(self.menus[event.menu_id].callbacks[event.item_id])
        } else {
            None
        }
    }

    /// The controller with the callback that `event` names taken out.
    pub open spec fn without_callback(self, event: SystrayEvent) -> Self {
        AppView {
            next_index: self.next_index,
            menus: self.menus.insert(
                event.menu_id,
                self.menus[event.menu_id].without_callback(event.item_id),
            ),
            running: self.running,
        }
    }

    /// The controller with `f` bound to the entry that `event` names.
    pub open spec fn with_callback(self, event: SystrayEvent, f: C) -> Self {
        AppView {
            next_index: self.next_index,
            menus: self.menus.insert(
                event.menu_id,
                self.menus[event.menu_id].with_callback(event.item_id, f),
            ),
            running: self.running,
        }
    }

    /// The controller once it has quit; the menu tree stays as it was.
    pub open spec fn stopped(self) -> Self {
        AppView { next_index: self.next_index, menus: self.menus, running: false }
    }

    /// Whether the submenu `menu_id` exists and binds a callback to
    /// `item_id`.
    pub open spec fn binds(self, menu_id: u64, item_id: u32) -> bool {
        self.has_menu(menu_id) && self.menus[menu_id].callbacks.contains_key(item_id)
    }

    /// Whether every bound index was issued by the counter and is bound in
    /// one submenu only.
    pub open spec fn indexes_unique(self) -> bool {
        &&& forall|m: u64, k: u32| #[trigger] self.binds(m, k) ==> k < self.next_index
        &&& forall|m1: u64, m2: u64, k: u32|
            #[trigger] self.binds(m1, k) && #[trigger] self.binds(m2, k) ==> m1 == m2
    }

    /// Whether `item_id` was issued and no submenu binds a callback to it:
    /// the state of an index whose callback is being invoked.
    pub open spec fn vacant(self, item_id: u32) -> bool {
        &&& item_id < self.next_index
        &&& forall|m: u64| !#[trigger] self.binds(m, item_id)
    }

    /// Whether the counter has stayed within the range of an index.
    pub open spec fn within_range(self) -> bool {
        self.next_index <= u32::MAX + 1
    }

    /// The controller after the platform answered `outcome` to the request
    /// to append a clickable entry to `submenu`. An unknown submenu and a
    /// failure of the platform both leave it unchanged.
    pub open spec fn after_item(self, submenu: u64, outcome: Result<(), SystrayError>, f: C) -> Self {
        if self.has_menu(submenu) && outcome is Ok {
            self.with_item(submenu, f)
        } else {
            self
        }
    }

    /// What `add_menu_item` returns: 0 for an unknown submenu, the
    /// platform's error, or else the index issued to the entry.
    pub open spec fn item_result(self, submenu: u64, outcome: Result<(), SystrayError>) -> Result<
        u32,
        SystrayError,
    > {
        if !self.has_menu(submenu) {
            Ok(0)
        } else {
            match outcome {
                Ok(_) => Ok(self.next_index as u32),
                Err(e) => Err(e),
            }
        }
    }

    /// The controller after the platform answered `outcome` to the request
    /// to append a group to `submenu`.
    pub open spec fn after_group(self, submenu: u64, outcome: Result<u64, SystrayError>) -> Self {
        match outcome {
            Ok(issued) if self.has_menu(submenu) => self.with_group(submenu, issued),
            _ => self,
        }
    }

    /// What `add_menu_group` returns: 0 for an unknown submenu, else the
    /// platform's answer, which on success is the new group's identifier.
    pub open spec fn group_result(self, submenu: u64, outcome: Result<u64, SystrayError>) -> Result<
        u64,
        SystrayError,
    > {
        if !self.has_menu(submenu) {
            Ok(0)
        } else {
            outcome
        }
    }

    /// The controller after the platform answered `outcome` to the request
    /// to append a separator to `submenu`.
    pub open spec fn after_separator(self, submenu: u64, outcome: Result<(), SystrayError>) -> Self {
        if self.has_menu(submenu) && outcome is Ok {
            self.with_separator(submenu)
        } else {
            self
        }
    }

    /// What `add_menu_separator` returns: 0 for an unknown submenu, the
    /// platform's error, or else the position the separator took.
    pub open spec fn separator_result(
        self,
        submenu: u64,
        outcome: Result<(), SystrayError>,
    ) -> Result<u32, SystrayError> {
        if !self.has_menu(submenu) {
            Ok(0)
        } else {
            match outcome {
                Ok(_) => Ok(self.menus[submenu].size as u32),
                Err(e) => Err(e),
            }
        }
    }

    /// What the dispatch loop decides on `msg`, where `None` stands for a
    /// closed bridge.
    pub open spec fn decision(self, msg: Option<SystrayEvent>) -> Dispatch<C> {
        if !self.running {
            Dispatch::Stop
        } else {
            match msg {
                None => Dispatch::Stop,
                Some(event) => match self.callback(event) {
                    Some(f) => Dispatch::Invoke(f),
                    None => Dispatch::Ignored,
                },
            }
        }
    }

    /// The controller after the dispatch loop has decided on `msg`: a closed
    /// bridge stops it, a registered callback leaves the tree to be invoked,
    /// and anything else changes nothing.
    pub open spec fn after_message(self, msg: Option<SystrayEvent>) -> Self {
        if !self.running {
            self
        } else {
            match msg {
                None => self.stopped(),
                Some(event) => if self.callback(event) is Some {
                    self.without_callback(event)
                } else {
                    self
                },
            }
        }
    }

    /// The controller after the callback that `event` named has returned:
    /// `f` is bound again, unless the controller has quit meanwhile or the
    /// submenu is gone.
    pub open spec fn after_callback(self, event: SystrayEvent, f: C) -> Self {
        if self.running && self.has_menu(event.menu_id) {
            self.with_callback(event, f)
        } else {
            self
        }
    }
}

/// The controller of the tray icon's menu: the submenus with their
/// callbacks, the counter that issues entry indexes, and whether the
/// dispatch loop still runs.
///
/// `C` is the type of the callbacks. The controller owns them and hands one
/// out when its entry is clicked; it never looks inside.
pub struct Application<C> {
    menu_idx: u32,
    menu_data: HashMap<u64, MenuData<C>>,
    running: bool,
}

impl<C> View for Application<C> {
    type V = AppView<C>;

    closed spec fn view(&self) -> AppView<C> {
        AppView {
            next_index: self.menu_idx as nat,
            menus: Map::new(
                |m: u64| self.menu_data@.contains_key(m),
                |m: u64| self.menu_data@[m]@,
            ),
            running: self.running,
        }
    }
}

impl<C> Application<C> {
    /// Sets the controller up from the outcome of the platform's startup:
    /// on success a running controller with an empty root menu, on failure
    /// that failure.
    pub fn new(startup: Result<(), SystrayError>) -> (app: Result<Self, SystrayError>)
        ensures
            match startup {
                Ok(_) => app is Ok && app->Ok_0@ == AppView::<C>::initial()
                    && app->Ok_0@.indexes_unique(),
                Err(e) => app is Err && app->Err_0 == e,
            },
    {
        match startup {
            Ok(_) => {
                let mut menu_data: HashMap<u64, MenuData<C>> = HashMap::new();
                menu_data.insert(0, MenuData::new());
                let app = Application { menu_idx: 0, menu_data, running: true };
                proof {
                    assert(app@.menus =~= AppView::<C>::initial().menus);
                }
                Ok(app)
            },
            Err(e) => Err(e),
        }
    }

    /// The counter of a controller never leaves the range of an index.
    pub proof fn lemma_counter_in_range(&self)
        ensures
            self@.next_index <= u32::MAX,
            self@.within_range(),
    {
    }

    /// Whether the dispatch loop still takes events.
    pub fn is_running(&self) -> (running: bool)
        ensures
            running == self@.running,
    {
        self.running
    }

    /// Whether the submenu `menu_id` exists.
    pub fn has_menu(&self, menu_id: u64) -> (known: bool)
        ensures
            known == self@.has_menu(menu_id),
    {
        self.menu_data.contains_key(&menu_id)
    }

    /// The index that the next clickable entry or group will get.
    pub fn next_index(&self) -> (index: u32)
        ensures
            index == self@.next_index,
    {
        self.menu_idx
    }

    /// Whether the index counter can issue one more index.
    pub fn has_index_left(&self) -> (left: bool)
        ensures
            left == self@.has_index_left(),
    {
        self.menu_idx < u32::MAX
    }

    /// The position that the next entry of the submenu `menu_id` will take,
    /// if the submenu exists.
    pub fn menu_size(&self, menu_id: u64) -> (size: Option<u32>)
        ensures
            size == (if self@.has_menu(menu_id) {
                Some(self@.menus[menu_id].size as u32)
            } else {
                None
            }),
            size is Some ==> size->Some_0 == self@.menus[menu_id].size,
    {
        match self.menu_data.get(&menu_id) {
            Some(menu) => Some(menu.size()),
            None => None,
        }
    }

    /// Whether `event` names an entry that a callback is bound to.
    pub fn has_callback(&self, event: SystrayEvent) -> (bound: bool)
        ensures
            bound == self@.callback(event) is Some,
    {
        match self.menu_data.get(&event.menu_id) {
            Some(menu) => menu.has_callback(event.item_id),
            None => false,
        }
    }
}

impl<C> Application<C> {
    /// The request that appends a clickable entry labelled `item_name` to
    /// the submenu `submenu`, or nothing where no such submenu exists: the
    /// platform is then not asked at all.
    pub fn request_menu_item(&self, submenu: u64, item_name: &str, icon: Option<&str>) -> (request:
        Option<BackendRequest>)
        ensures
            request is Some <==> self@.has_menu(submenu),
            request is Some ==> request->Some_0@ == (RequestView::AddItem {
                menu_id: submenu,
                item_index: self@.next_index as u32,
                position: self@.menus[submenu].size as u32,
                label: item_name@,
                icon: str_of(icon),
            }),
    {
        match self.menu_size(submenu) {
            Some(position) => Some(
                BackendRequest::AddItem {
                    menu_id: submenu,
                    item_index: self.menu_idx,
                    position,
                    label: item_name.to_owned(),
                    icon: own_text(icon),
                },
            ),
            None => None,
        }
    }

    /// Records the platform's answer to the request of `request_menu_item`.
    ///
    /// On success the entry takes the next index and the next position of
    /// `submenu`, `f` is bound to it, and the index is returned. A failure
    /// of the platform is returned and records nothing. An unknown submenu
    /// records nothing either and returns 0.
    pub fn add_menu_item(&mut self, submenu: u64, outcome: Result<(), SystrayError>, f: C) -> (issued:
        Result<u32, SystrayError>)
        requires
            old(self)@.has_menu(submenu) && outcome is Ok ==> old(self)@.has_index_left()
                && old(self)@.has_room(submenu),
        ensures
            final(self)@ == old(self)@.after_item(submenu, outcome, f),
            issued == old(self)@.item_result(submenu, outcome),
            old(self)@.indexes_unique() ==> final(self)@.indexes_unique(),
    {
        proof {
            if self@.indexes_unique() {
                lemma_op_keeps_indexes_unique(self@, MenuOp::Item { submenu, outcome, f });
            }
        }
        if !self.menu_data.contains_key(&submenu) {
            return Ok(0);
        }
        match outcome {
            Err(e) => Err(e),
            Ok(_) => {
                let ghost before = self@;
                let index: u32 = self.menu_idx;
                let mut menu = self.menu_data.remove(&submenu).unwrap();
                menu.push_item(index, f);
                self.menu_data.insert(submenu, menu);
                self.menu_idx = index + 1;
                proof {
                    assert(self@.menus =~= before.with_item(submenu, f).menus);
                }
                Ok(index)
            },
        }
    }

    /// The request that appends a group labelled `item_name` to the submenu
    /// `submenu`, or nothing where no such submenu exists.
    pub fn request_menu_group(&self, submenu: u64, item_name: &str, icon: Option<&str>) -> (request:
        Option<BackendRequest>)
        ensures
            request is Some <==> self@.has_menu(submenu),
            request is Some ==> request->Some_0@ == (RequestView::AddGroup {
                menu_id: submenu,
                item_index: self@.next_index as u32,
                position: self@.menus[submenu].size as u32,
                label: item_name@,
                icon: str_of(icon),
            }),
    {
        match self.menu_size(submenu) {
            Some(position) => Some(
                BackendRequest::AddGroup {
                    menu_id: submenu,
                    item_index: self.menu_idx,
                    position,
                    label: item_name.to_owned(),
                    icon: own_text(icon),
                },
            ),
            None => None,
        }
    }

    /// Records the platform's answer to the request of `request_menu_group`.
    ///
    /// On success the answer is the identifier of the new group: an empty
    /// submenu is kept under it, the group's entry takes the next index and
    /// the next position of `submenu`, and the identifier is returned. A
    /// failure of the platform is returned and records nothing. An unknown
    /// submenu records nothing either and returns 0.
    pub fn add_menu_group(&mut self, submenu: u64, outcome: Result<u64, SystrayError>) -> (group:
        Result<u64, SystrayError>)
        requires
            old(self)@.has_menu(submenu) && outcome is Ok ==> old(self)@.has_index_left()
                && old(self)@.has_room(submenu),
        ensures
            final(self)@ == old(self)@.after_group(submenu, outcome),
            group == old(self)@.group_result(submenu, outcome),
            old(self)@.indexes_unique() ==> final(self)@.indexes_unique(),
    {
        proof {
            if self@.indexes_unique() {
                lemma_op_keeps_indexes_unique(self@, MenuOp::Group { submenu, answer: outcome });
            }
        }
        if !self.menu_data.contains_key(&submenu) {
            return Ok(0);
        }
        match outcome {
            Err(e) => Err(e),
            Ok(issued) => {
                let ghost before = self@;
                self.menu_data.insert(issued, MenuData::new());
                let mut parent = self.menu_data.remove(&submenu).unwrap();
                parent.push_slot();
                self.menu_data.insert(submenu, parent);
                self.menu_idx = self.menu_idx + 1;
                proof {
                    assert(self@.menus =~= before.with_group(submenu, issued).menus);
                }
                Ok(issued)
            },
        }
    }

    /// The request that appends a separator to the submenu `submenu`, or
    /// nothing where no such submenu exists.
    pub fn request_menu_separator(&self, submenu: u64) -> (request: Option<BackendRequest>)
        ensures
            request is Some <==> self@.has_menu(submenu),
            request is Some ==> request->Some_0@ == (RequestView::AddSeparator {
                menu_id: submenu,
                position: self@.menus[submenu].size as u32,
            }),
    {
        match self.menu_size(submenu) {
            Some(position) => Some(BackendRequest::AddSeparator { menu_id: submenu, position }),
            None => None,
        }
    }

    /// Records the platform's answer to the request of
    /// `request_menu_separator`.
    ///
    /// On success the separator takes the next position of `submenu`, which
    /// is returned, and no index. A failure of the platform is returned and
    /// records nothing. An unknown submenu records nothing either and
    /// returns 0.
    pub fn add_menu_separator(&mut self, submenu: u64, outcome: Result<(), SystrayError>) -> (position:
        Result<u32, SystrayError>)
        requires
            old(self)@.has_menu(submenu) && outcome is Ok ==> old(self)@.has_room(submenu),
        ensures
            final(self)@ == old(self)@.after_separator(submenu, outcome),
            position == old(self)@.separator_result(submenu, outcome),
            old(self)@.indexes_unique() ==> final(self)@.indexes_unique(),
    {
        proof {
            if self@.indexes_unique() {
                lemma_op_keeps_indexes_unique(self@, MenuOp::Separator { submenu, outcome });
            }
        }
        if !self.menu_data.contains_key(&submenu) {
            return Ok(0);
        }
        match outcome {
            Err(e) => Err(e),
            Ok(_) => {
                let ghost before = self@;
                let mut menu = self.menu_data.remove(&submenu).unwrap();
                let position: u32 = menu.size();
                menu.push_slot();
                self.menu_data.insert(submenu, menu);
                proof {
                    assert(self@.menus =~= before.with_separator(submenu).menus);
                }
                Ok(position)
            },
        }
    }

    /// Whether `add_menu_item` and `add_menu_group` can record a success in
    /// `submenu`: an unknown submenu takes nothing and so always can.
    pub fn can_add_entry(&self, submenu: u64) -> (able: bool)
        ensures
            able == (self@.has_menu(submenu) ==> self@.has_index_left() && self@.has_room(submenu)),
    {
        match self.menu_size(submenu) {
            Some(size) => self.menu_idx < u32::MAX && size < u32::MAX,
            None => true,
        }
    }

    /// Whether `add_menu_separator` can record a success in `submenu`.
    pub fn can_add_separator(&self, submenu: u64) -> (able: bool)
        ensures
            able == (self@.has_menu(submenu) ==> self@.has_room(submenu)),
    {
        match self.menu_size(submenu) {
            Some(size) => size < u32::MAX,
            None => true,
        }
    }

    /// The request that loads the tray icon from the file `file`.
    pub fn set_icon_from_file(&self, file: &str) -> (request: BackendRequest)
        ensures
            request@ == (RequestView::SetIconFromFile { path: file@ }),
    {
        BackendRequest::SetIconFromFile { path: file.to_owned() }
    }

    /// The request that loads the tray icon from the resource `resource`.
    pub fn set_icon_from_resource(&self, resource: &str) -> (request: BackendRequest)
        ensures
            request@ == (RequestView::SetIconFromResource { name: resource@ }),
    {
        BackendRequest::SetIconFromResource { name: resource.to_owned() }
    }

    /// The request that loads the tray icon, `width` by `height`, from the
    /// icon data in `buffer`.
    pub fn set_icon_from_buffer(&self, buffer: &[u8], width: u32, height: u32) -> (request:
        BackendRequest)
        ensures
            request@ == (RequestView::SetIconFromBuffer { bytes: buffer@, width, height }),
    {
        BackendRequest::SetIconFromBuffer { bytes: vstd::slice::slice_to_vec(buffer), width, height }
    }

    /// The request that sets the text shown when the pointer rests on the
    /// icon.
    pub fn set_tooltip(&self, tooltip: &str) -> (request: BackendRequest)
        ensures
            request@ == (RequestView::SetTooltip { text: tooltip@ }),
    {
        BackendRequest::SetTooltip { text: tooltip.to_owned() }
    }

    /// The request that removes the icon from the notification area. The
    /// controller itself stays as it is and may be asked again.
    pub fn shutdown(&self) -> (request: BackendRequest)
        ensures
            request@ == RequestView::Shutdown,
    {
        BackendRequest::Shutdown
    }

    /// Stops the dispatch loop for good and returns the request that ends
    /// the native event loop. The menu tree stays as it was.
    pub fn quit(&mut self) -> (request: BackendRequest)
        ensures
            final(self)@ == old(self)@.stopped(),
            request@ == RequestView::Quit,
            old(self)@.indexes_unique() ==> final(self)@.indexes_unique(),
    {
        proof {
            lemma_quit_keeps_indexes_unique(self@);
        }
        self.running = false;
        BackendRequest::Quit
    }

    /// One turn of the dispatch loop on the message `msg` from the event
    /// bridge, where `None` says that the bridge is closed.
    ///
    /// A controller that has quit stops and takes nothing. A closed bridge
    /// makes the controller quit. An event whose submenu exists and binds a
    /// callback to the event's entry takes that callback out of the tree
    /// and hands it over to be invoked. Any other event is ignored.
    pub fn wait_for_message(&mut self, msg: Option<SystrayEvent>) -> (next: Dispatch<C>)
        ensures
            final(self)@ == old(self)@.after_message(msg),
            next == old(self)@.decision(msg),
            old(self)@.indexes_unique() ==> final(self)@.indexes_unique(),
            old(self)@.indexes_unique() && next is Invoke ==> final(self)@.vacant(
                msg->Some_0.item_id,
            ),
    {
        proof {
            lemma_quit_keeps_indexes_unique(self@);
            if self@.indexes_unique() && self@.running && msg is Some && self@.callback(
                msg->Some_0,
            ) is Some {
                lemma_dispatch_vacates(self@, msg->Some_0);
            }
        }
        if !self.running {
            return Dispatch::Stop;
        }
        let event = match msg {
            Some(event) => event,
            None => {
                self.running = false;
                return Dispatch::Stop;
            },
        };
        if !self.has_callback(event) {
            return Dispatch::Ignored;
        }
        let ghost before = self@;
        let mut menu = self.menu_data.remove(&event.menu_id).unwrap();
        let f = menu.take_callback(event.item_id).unwrap();
        self.menu_data.insert(event.menu_id, menu);
        proof {
            assert(self@.menus =~= before.without_callback(event).menus);
        }
        Dispatch::Invoke(f)
    }

    /// Ends the turn of the dispatch loop that handed out `f` for `event`,
    /// once `f` has been invoked, and says whether the loop goes on.
    ///
    /// `f` is bound to its entry again, unless the controller has quit in
    /// the meantime or the submenu no longer exists: then `f` is dropped.
    pub fn restore_callback(&mut self, event: SystrayEvent, f: C) -> (resume: bool)
        ensures
            final(self)@ == old(self)@.after_callback(event, f),
            resume == old(self)@.running,
            old(self)@.indexes_unique() && old(self)@.vacant(event.item_id)
                ==> final(self)@.indexes_unique(),
    {
        proof {
            if self@.indexes_unique() && self@.vacant(event.item_id) {
                lemma_restore_keeps_indexes_unique(self@, event, f);
            }
        }
        if !self.running {
            return false;
        }
        if !self.menu_data.contains_key(&event.menu_id) {
            return true;
        }
        let ghost before = self@;
        let mut menu = self.menu_data.remove(&event.menu_id).unwrap();
        menu.put_callback(event.item_id, f);
        self.menu_data.insert(event.menu_id, menu);
        proof {
            assert(self@.menus =~= before.with_callback(event, f).menus);
        }
        true
    }
}

} // verus!
