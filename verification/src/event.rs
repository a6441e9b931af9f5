use vstd::prelude::*;

verus! {

/// One click on a menu entry: the submenu it happened in (0 is the root menu)
/// and the tree-wide index of the entry.
#[derive(Clone, Copy, Debug, PartialEq, Eq, Structural)]
pub struct SystrayEvent {
    pub menu_id: u64,
    pub item_id: u32,
}

/// The value by which the platform reports that a position holds no entry.
pub const NO_NATIVE_ITEM: i32 = -1;

/// The event that a native "menu entry selected" notification stands for.
///
/// `root_handle` is the native handle of the root menu, `menu_handle` the
/// handle of the menu the selection happened in, and `native_item` the
/// identifier that the platform gives for the selected position.
pub open spec fn translated(root_handle: u64, menu_handle: u64, native_item: i32) -> Option<
    SystrayEvent,
> {
    if native_item == NO_NATIVE_ITEM {
        None
    } else {
        Some(
            SystrayEvent {
                menu_id: if menu_handle == root_handle {
                    0
                } else {
                    menu_handle
                },
                item_id: native_item as u32,
            },
        )
    }
}

/// The native handle that a menu identifier stands for: the root's for 0,
/// else the identifier itself.
pub open spec fn native_handle(root_handle: u64, menu_id: u64) -> u64 {
    if menu_id == 0 {
        root_handle
    } else {
        menu_id
    }
}

impl SystrayEvent {
    pub fn new(menu_id: u64, item_id: u32) -> (event: SystrayEvent)
        ensures
            event == (SystrayEvent { menu_id, item_id }),
    {
        SystrayEvent { menu_id, item_id }
    }

    /// Turns a native "menu entry selected" notification into an event, or
    /// into nothing where the platform found no entry at the position.
    pub fn from_menu_command(root_handle: u64, menu_handle: u64, native_item: i32) -> (event:
        Option<SystrayEvent>)
        ensures
            event == translated(root_handle, menu_handle, native_item),
    {
        if native_item == NO_NATIVE_ITEM {
            None
        } else {
            let menu_id: u64 = if menu_handle == root_handle {
                0
            } else {
                menu_handle
            };
            Some(SystrayEvent { menu_id, item_id: native_item as u32 })
        }
    }

    /// The native menu handle to hand to the platform for `menu_id`.
    pub fn menu_handle(root_handle: u64, menu_id: u64) -> (handle: u64)
        ensures
            handle == native_handle(root_handle, menu_id),
    {
        if menu_id == 0 {
            root_handle
        } else {
            menu_id
        }
    }
}

/// A selection in a menu is reported under the identifier that the menu was
/// addressed by, whenever that identifier is not the root's own handle.
pub proof fn lemma_handle_round_trip(root_handle: u64, menu_id: u64, native_item: i32)
    requires
        native_item != NO_NATIVE_ITEM,
        menu_id != root_handle,
    ensures
        translated(root_handle, native_handle(root_handle, menu_id), native_item) == Some(
            SystrayEvent { menu_id, item_id: native_item as u32 },
        ),
{
}

} // verus!
