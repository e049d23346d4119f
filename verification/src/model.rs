//! The plain data the bridge reads and forwards: views, trash entries, and
//! the sync-state snapshots the store reports.

use vstd::prelude::*;

verus! {

/// Classifies a view as belonging to the public or the private section of a
/// workspace.
#[derive(Clone, Copy, PartialEq, Eq, Structural, Debug)]
pub enum ViewSection {
    Public,
    Private,
}

/// Mathematical image of a [`FolderView`]: the same fields with their string
/// contents as character sequences.
#[verifier::ext_equal]
pub ghost struct ViewInfo {
    pub id: Seq<char>,
    pub parent_view_id: Seq<char>,
    pub name: Seq<char>,
    pub section: ViewSection,
}

/// One node of the content tree, as the bridge reads it out of the shared
/// store: an id, the id of its parent (another view or the workspace), a
/// display name, and its section.
pub struct FolderView {
    pub id: String,
    pub parent_view_id: String,
    pub name: String,
    pub section: ViewSection,
}

impl View for FolderView {
    type V = ViewInfo;

    open spec fn view(&self) -> ViewInfo {
        ViewInfo {
            id: self.id@,
            parent_view_id: self.parent_view_id@,
            name: self.name@,
            section: self.section,
        }
    }
}

impl Clone for FolderView {
    fn clone(&self) -> (r: Self)
        ensures
            r@ == self@,
    {
        FolderView {
            id: self.id.clone(),
            parent_view_id: self.parent_view_id.clone(),
            name: self.name.clone(),
            section: self.section,
        }
    }
}

/// A view that is logically deleted but still retrievable; only its id
/// matters to the bridge.
pub struct TrashEntry {
    pub id: String,
}

impl View for TrashEntry {
    type V = Seq<char>;

    open spec fn view(&self) -> Seq<char> {
        self.id@
    }
}

impl Clone for TrashEntry {
    fn clone(&self) -> (r: Self)
        ensures
            r@ == self@,
    {
        TrashEntry { id: self.id.clone() }
    }
}

/// A snapshot of the store's synchronization state. The bridge forwards it
/// opaquely; it never branches on the value.
#[derive(Clone, Copy, PartialEq, Eq, Structural, Debug)]
pub enum SyncState {
    Syncing,
    Finished,
}

/// One raw mutation event as the store's streams deliver it. Creation and
/// update events carry the full record; deletion and trash events carry
/// only what the store still knows at that moment.
pub enum ChangeEvent {
    ViewCreated { view: FolderView },
    ViewDeleted { views: Vec<FolderView> },
    ViewUpdated { view: FolderView },
    TrashItemAdded { ids: Vec<String> },
    TrashItemRemoved { ids: Vec<String> },
    SyncStateChanged { state: SyncState },
}

/// The images of a sequence of views.
pub open spec fn view_infos(s: Seq<FolderView>) -> Seq<ViewInfo> {
    s.map_values(|v: FolderView| v@)
}

/// The ids of a sequence of trash entries.
pub open spec fn trash_id_list(s: Seq<TrashEntry>) -> Seq<Seq<char>> {
    s.map_values(|t: TrashEntry| t@)
}

/// The character sequences of a sequence of id strings.
pub open spec fn id_list(s: Seq<String>) -> Seq<Seq<char>> {
    s.map_values(|t: String| t@)
}

} // verus!
