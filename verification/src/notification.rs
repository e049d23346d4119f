//! Outbound notifications: the topic they are addressed to, the kind of
//! change they announce, and the payload they carry. Building one has no
//! side effect; delivery belongs to the transport outside this crate.

use vstd::prelude::*;
use vstd::string::StringExecFns;

use crate::model::{FolderView, SyncState, TrashEntry, ViewInfo, ViewSection, trash_id_list, view_infos};

verus! {

/// What kind of change a notification announces.
#[derive(Clone, Copy, PartialEq, Eq, Structural, Debug)]
pub enum NotificationKind {
    DidUpdateView,
    DidUpdateChildViews,
    DidUpdateTrash,
    DidUpdateWorkspaceViews,
    DidUpdateSectionViews,
    DidUpdateFolderSyncUpdate,
}

/// Why a child view is reported changed under its parent.
#[derive(Clone, Copy, PartialEq, Eq, Structural, Debug)]
pub enum ChildViewChangeReason {
    Create,
    Delete,
    Update,
}

/// The data a notification carries.
pub enum Payload {
    /// One child view appeared, vanished or changed under `parent_view_id`;
    /// exactly one of the three lists is filled.
    ChildViewUpdate {
        parent_view_id: String,
        create_child_views: Vec<FolderView>,
        delete_child_views: Vec<String>,
        update_child_views: Vec<FolderView>,
    },
    /// A view together with its current direct children.
    ViewDetails { view: FolderView, child_views: Vec<FolderView> },
    /// The current trash summary.
    TrashList { items: Vec<TrashEntry> },
    /// The views of one section of the workspace.
    SectionViews { section: ViewSection, views: Vec<FolderView> },
    /// The public views of the workspace.
    WorkspaceViews { views: Vec<FolderView> },
    /// A snapshot of the store's synchronization state.
    SyncUpdate { state: SyncState },
}

/// Mathematical image of a [`Payload`].
#[verifier::ext_equal]
pub ghost enum PayloadInfo {
    ChildViewUpdate {
        parent_view_id: Seq<char>,
        create_child_views: Seq<ViewInfo>,
        delete_child_views: Seq<Seq<char>>,
        update_child_views: Seq<ViewInfo>,
    },
    ViewDetails { view: ViewInfo, child_views: Seq<ViewInfo> },
    TrashList { items: Seq<Seq<char>> },
    SectionViews { section: ViewSection, views: Seq<ViewInfo> },
    WorkspaceViews { views: Seq<ViewInfo> },
    SyncUpdate { state: SyncState },
}

impl View for Payload {
    type V = PayloadInfo;

    open spec fn view(&self) -> PayloadInfo {
        match self {
            Payload::ChildViewUpdate {
                parent_view_id,
                create_child_views,
                delete_child_views,
                update_child_views,
            } => (PayloadInfo::ChildViewUpdate {
                parent_view_id: parent_view_id@,
                create_child_views: view_infos(create_child_views@),
                delete_child_views: crate::model::id_list(delete_child_views@),
                update_child_views: view_infos(update_child_views@),
            }),
            Payload::ViewDetails { view, child_views } => (PayloadInfo::ViewDetails {
                view: view@,
                child_views: view_infos(child_views@),
            }),
            Payload::TrashList { items } => (PayloadInfo::TrashList {
                items: trash_id_list(items@),
            }),
            Payload::SectionViews { section, views } => (PayloadInfo::SectionViews {
                section: *section,
                views: view_infos(views@),
            }),
            Payload::WorkspaceViews { views } => (PayloadInfo::WorkspaceViews {
                views: view_infos(views@),
            }),
            Payload::SyncUpdate { state } => (PayloadInfo::SyncUpdate { state: *state }),
        }
    }
}

/// One outbound message: where it goes, what it announces, what it carries.
pub struct Notification {
    pub topic: String,
    pub kind: NotificationKind,
    pub payload: Payload,
}

/// Mathematical image of a [`Notification`].
#[verifier::ext_equal]
pub ghost struct NotificationInfo {
    pub topic: Seq<char>,
    pub kind: NotificationKind,
    pub payload: PayloadInfo,
}

impl View for Notification {
    type V = NotificationInfo;

    open spec fn view(&self) -> NotificationInfo {
        NotificationInfo { topic: self.topic@, kind: self.kind, payload: self.payload@ }
    }
}

/// The images of a sequence of notifications.
pub open spec fn note_infos(s: Seq<Notification>) -> Seq<NotificationInfo> {
    s.map_values(|n: Notification| n@)
}

/// The child-view payload announcing `view` changed under its parent for
/// `reason`.
pub open spec fn child_payload(view: ViewInfo, reason: ChildViewChangeReason) -> PayloadInfo {
    PayloadInfo::ChildViewUpdate {
        parent_view_id: view.parent_view_id,
        create_child_views: if reason is Create { seq![view] } else { Seq::empty() },
        delete_child_views: if reason is Delete { seq![view.id] } else { Seq::empty() },
        update_child_views: if reason is Update { seq![view] } else { Seq::empty() },
    }
}

/// The notification announcing `view` changed under its parent for `reason`.
pub open spec fn child_note(view: ViewInfo, reason: ChildViewChangeReason) -> NotificationInfo {
    NotificationInfo {
        topic: view.parent_view_id,
        kind: NotificationKind::DidUpdateChildViews,
        payload: child_payload(view, reason),
    }
}

/// The notification announcing `view` itself changed, carrying the view
/// without children.
pub open spec fn view_note(view: ViewInfo) -> NotificationInfo {
    NotificationInfo {
        topic: view.id,
        kind: NotificationKind::DidUpdateView,
        payload: PayloadInfo::ViewDetails { view: view, child_views: Seq::empty() },
    }
}

/// The notification carrying the trash summary `items`, addressed to the
/// trash topic.
pub open spec fn trash_note(items: Seq<Seq<char>>) -> NotificationInfo {
    NotificationInfo {
        topic: "trash"@,
        kind: NotificationKind::DidUpdateTrash,
        payload: PayloadInfo::TrashList { items: items },
    }
}

/// Builds the notification that tells a parent one of its child views was
/// created, deleted or updated; the topic is the parent's id.
pub fn notify_child_views_changed(view: FolderView, reason: ChildViewChangeReason) -> (n: Notification)
    ensures
        n@ == child_note(view@, reason),
{
    let parent_view_id = view.parent_view_id.clone();
    let mut create_child_views: Vec<FolderView> = Vec::new();
    let mut delete_child_views: Vec<String> = Vec::new();
    let mut update_child_views: Vec<FolderView> = Vec::new();
    match reason {
        ChildViewChangeReason::Create => {
            create_child_views.push(view);
        },
        ChildViewChangeReason::Delete => {
            delete_child_views.push(view.id);
        },
        ChildViewChangeReason::Update => {
            update_child_views.push(view);
        },
    }
    let n = Notification {
        topic: parent_view_id.clone(),
        kind: NotificationKind::DidUpdateChildViews,
        payload: Payload::ChildViewUpdate {
            parent_view_id,
            create_child_views,
            delete_child_views,
            update_child_views,
        },
    };
    assert(n@.payload =~= child_payload(view@, reason)) by {
        assert(view_infos(Seq::<FolderView>::empty()) =~= Seq::<ViewInfo>::empty());
        assert(crate::model::id_list(Seq::<String>::empty()) =~= Seq::<Seq<char>>::empty());
    }
    n
}

/// Builds the notification that a view's own record changed; the topic is
/// the view's id and the payload carries no children.
pub fn notify_view_did_change(view: FolderView) -> (n: Notification)
    ensures
        n@ == view_note(view@),
{
    let topic = view.id.clone();
    let n = Notification {
        topic,
        kind: NotificationKind::DidUpdateView,
        payload: Payload::ViewDetails { view, child_views: Vec::new() },
    };
    assert(n@.payload =~= view_note(n.payload->ViewDetails_view@).payload) by {
        assert(view_infos(Seq::<FolderView>::empty()) =~= Seq::<ViewInfo>::empty());
    }
    n
}

/// Builds the trash notification carrying the summary `items`.
pub fn notify_trash_changed(items: Vec<TrashEntry>) -> (n: Notification)
    ensures
        n@ == trash_note(trash_id_list(items@)),
{
    Notification {
        topic: String::from_str("trash"),
        kind: NotificationKind::DidUpdateTrash,
        payload: Payload::TrashList { items },
    }
}

} // verus!
