use vstd::prelude::*;

verus! {

/// What the controller asks of the platform, as a value that the code which
/// owns the native resources carries out.
#[derive(Clone, Debug, PartialEq, Eq)]
pub enum BackendRequest {
    /// Show `text` when the pointer rests on the icon.
    SetTooltip { text: String },
    /// Load the icon from the file at `path`.
    SetIconFromFile { path: String },
    /// Load the icon from the resource called `name`.
    SetIconFromResource { name: String },
    /// Load the icon of the given size from icon data held in memory.
    SetIconFromBuffer { bytes: Vec<u8>, width: u32, height: u32 },
    /// Insert a clickable entry into the menu `menu_id` at `position`.
    AddItem { menu_id: u64, item_index: u32, position: u32, label: String, icon: Option<String> },
    /// Create a submenu and insert its entry into the menu `menu_id` at
    /// `position`; the platform answers with the new submenu's identifier.
    AddGroup { menu_id: u64, item_index: u32, position: u32, label: String, icon: Option<String> },
    /// Insert a separator into the menu `menu_id` at `position`.
    AddSeparator { menu_id: u64, position: u32 },
    /// Remove the icon from the notification area.
    Shutdown,
    /// End the native event loop and wait for its thread.
    Quit,
}

/// A request as a mathematical value, its texts as sequences of characters.
pub enum RequestView {
    SetTooltip { text: Seq<char> },
    SetIconFromFile { path: Seq<char> },
    SetIconFromResource { name: Seq<char> },
    SetIconFromBuffer { bytes: Seq<u8>, width: u32, height: u32 },
    AddItem { menu_id: u64, item_index: u32, position: u32, label: Seq<char>, icon: Option<Seq<char>> },
    AddGroup { menu_id: u64, item_index: u32, position: u32, label: Seq<char>, icon: Option<Seq<char>> },
    AddSeparator { menu_id: u64, position: u32 },
    Shutdown,
    Quit,
}

/// The characters of an optional text.
pub open spec fn text_of(text: Option<String>) -> Option<Seq<char>> {
    match text {
        Some(s) => Some(s@),
        None => None,
    }
}

/// The characters of an optional borrowed text.
pub open spec fn str_of(text: Option<&str>) -> Option<Seq<char>> {
    match text {
        Some(s) => Some(s@),
        None => None,
    }
}

impl View for BackendRequest {
    type V = RequestView;

    open spec fn view(&self) -> RequestView {
        match *self {
            BackendRequest::SetTooltip { text } => RequestView::SetTooltip { text: text@ },
            BackendRequest::SetIconFromFile { path } => RequestView::SetIconFromFile { path: path@ },
            BackendRequest::SetIconFromResource { name } => RequestView::SetIconFromResource {
                name: name@,
            },
            BackendRequest::SetIconFromBuffer { bytes, width, height } => {
                RequestView::SetIconFromBuffer { bytes: bytes@, width, height }
            },
            BackendRequest::AddItem { menu_id, item_index, position, label, icon } => {
                RequestView::AddItem {
                    menu_id,
                    item_index,
                    position,
                    label: label@,
                    icon: text_of(icon),
                }
            },
            BackendRequest::AddGroup { menu_id, item_index, position, label, icon } => {
                RequestView::AddGroup {
                    menu_id,
                    item_index,
                    position,
                    label: label@,
                    icon: text_of(icon),
                }
            },
            BackendRequest::AddSeparator { menu_id, position } => RequestView::AddSeparator {
                menu_id,
                position,
            },
            BackendRequest::Shutdown => RequestView::Shutdown,
            BackendRequest::Quit => RequestView::Quit,
        }
    }
}

/// An owned copy of an optional text.
pub fn own_text(text: Option<&str>) -> (owned: Option<String>)
    ensures
        text_of(owned) == str_of(text),
{
    match text {
        Some(s) => Some(s.to_owned()),
        None => None,
    }
}

} // verus!
