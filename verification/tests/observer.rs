use folder_observer::aggregator::{
    notify_did_update_section_views, notify_did_update_workspace, notify_parent_view_did_change,
    process_events,
};
use folder_observer::folder::FolderSnapshot;
use folder_observer::model::{ChangeEvent, FolderView, SyncState, TrashEntry, ViewSection};
use folder_observer::notification::{
    ChildViewChangeReason, Notification, NotificationKind, Payload, notify_child_views_changed,
};
use folder_observer::task::{SubscriptionTask, should_continue};

fn uid(n: u128) -> String {
    uuid::Uuid::from_u128(n).to_string()
}

fn view(id: u128, parent: u128, name: &str, section: ViewSection) -> FolderView {
    FolderView {
        id: uid(id),
        parent_view_id: uid(parent),
        name: name.to_string(),
        section,
    }
}

fn count_kind_topic(out: &[Notification], kind: NotificationKind, topic: &str) -> usize {
    out.iter().filter(|n| n.kind == kind && n.topic == topic).count()
}

fn child_ids_of(out: &[Notification], topic: &str) -> Vec<String> {
    for n in out {
        if n.kind == NotificationKind::DidUpdateView && n.topic == topic {
            if let Payload::ViewDetails { child_views, .. } = &n.payload {
                return child_views.iter().map(|v| v.id.clone()).collect();
            }
        }
    }
    panic!("no child-list notification on topic {}", topic);
}

const W: u128 = 1;

#[test]
fn two_creations_one_parent_refresh() {
    // Scenario: V1 and V2 both created under P; the batch yields one child
    // message per creation and exactly one consolidated listing of P.
    let p = view(2, W, "p", ViewSection::Public);
    let v1 = view(3, 2, "v1", ViewSection::Public);
    let v2 = view(4, 2, "v2", ViewSection::Public);
    let folder = FolderSnapshot { views: vec![p, v1.clone(), v2.clone()], trash: vec![] };
    let events = vec![
        ChangeEvent::ViewCreated { view: v1 },
        ChangeEvent::ViewCreated { view: v2 },
    ];
    let out = process_events(W, &folder, &events);
    assert_eq!(count_kind_topic(&out, NotificationKind::DidUpdateChildViews, &uid(2)), 2);
    assert_eq!(count_kind_topic(&out, NotificationKind::DidUpdateView, &uid(2)), 1);
    assert_eq!(child_ids_of(&out, &uid(2)), vec![uid(3), uid(4)]);
}

#[test]
fn trash_added_under_workspace() {
    // Scenario: a view whose parent is the workspace goes to the trash: the
    // trash summary plus the workspace and both section listings come out.
    let v1 = view(5, W, "v1", ViewSection::Public);
    let folder = FolderSnapshot {
        views: vec![v1],
        trash: vec![TrashEntry { id: uid(5) }],
    };
    let events = vec![ChangeEvent::TrashItemAdded { ids: vec![uid(5)] }];
    let out = process_events(W, &folder, &events);
    assert_eq!(out.len(), 4);
    assert_eq!(count_kind_topic(&out, NotificationKind::DidUpdateTrash, "trash"), 1);
    assert_eq!(count_kind_topic(&out, NotificationKind::DidUpdateWorkspaceViews, &uid(W)), 1);
    assert_eq!(count_kind_topic(&out, NotificationKind::DidUpdateSectionViews, &uid(W)), 2);
    let sections: Vec<ViewSection> = out
        .iter()
        .filter_map(|n| match &n.payload {
            Payload::SectionViews { section, .. } => Some(*section),
            _ => None,
        })
        .collect();
    assert!(sections.contains(&ViewSection::Public));
    assert!(sections.contains(&ViewSection::Private));
}

#[test]
fn trash_added_under_view_parent() {
    // Two siblings trashed at once: one trash summary, one consolidated
    // listing of their parent, and neither trashed child is listed.
    let p = view(2, W, "p", ViewSection::Public);
    let a = view(3, 2, "a", ViewSection::Public);
    let b = view(4, 2, "b", ViewSection::Public);
    let folder = FolderSnapshot {
        views: vec![p, a, b],
        trash: vec![TrashEntry { id: uid(3) }, TrashEntry { id: uid(4) }],
    };
    let events = vec![ChangeEvent::TrashItemAdded { ids: vec![uid(3), uid(4)] }];
    let out = process_events(W, &folder, &events);
    assert_eq!(out.len(), 2);
    assert_eq!(count_kind_topic(&out, NotificationKind::DidUpdateTrash, "trash"), 1);
    assert_eq!(count_kind_topic(&out, NotificationKind::DidUpdateView, &uid(2)), 1);
    assert!(child_ids_of(&out, &uid(2)).is_empty());
}

#[test]
fn trash_added_unresolvable_id() {
    // Scenario: the trashed id no longer resolves; the trash summary still
    // goes out and nothing else does.
    let folder = FolderSnapshot { views: vec![], trash: vec![TrashEntry { id: uid(9) }] };
    let events = vec![ChangeEvent::TrashItemAdded { ids: vec![uid(9)] }];
    let out = process_events(W, &folder, &events);
    assert_eq!(out.len(), 1);
    assert_eq!(out[0].kind, NotificationKind::DidUpdateTrash);
    assert_eq!(out[0].topic, "trash");
}

#[test]
fn workspace_mismatch_mid_stream() {
    // Scenario: three events process, then the session's workspace moves;
    // the in-flight fourth event and everything after it are dropped.
    let p = view(2, W, "p", ViewSection::Public);
    let folder = FolderSnapshot { views: vec![p], trash: vec![] };
    let mut task = SubscriptionTask::new(W);
    let mut emitted: Vec<Notification> = Vec::new();
    for i in 0..3u128 {
        let v = view(10 + i, 2, "v", ViewSection::Public);
        let out = task.on_event(
            Some(&folder),
            Some(W),
            &ChangeEvent::ViewCreated { view: v },
        );
        assert!(!out.is_empty());
        emitted.extend(out);
    }
    let before = emitted.len();
    let v4 = view(20, 2, "v4", ViewSection::Public);
    let out = task.on_event(Some(&folder), Some(2), &ChangeEvent::ViewCreated { view: v4 });
    assert!(out.is_empty());
    assert!(task.terminated);
    let v5 = view(21, 2, "v5", ViewSection::Public);
    let out = task.on_event(Some(&folder), Some(W), &ChangeEvent::ViewCreated { view: v5 });
    assert!(out.is_empty());
    assert_eq!(emitted.len(), before);
}

#[test]
fn store_gone_terminates_without_output() {
    let mut task = SubscriptionTask::new(W);
    let v = view(3, 2, "v", ViewSection::Public);
    let out = task.on_event(None, Some(W), &ChangeEvent::ViewCreated { view: v });
    assert!(out.is_empty());
    assert!(task.terminated);
}

#[test]
fn stream_closed_terminates() {
    let mut task = SubscriptionTask::new(W);
    task.on_stream_closed();
    assert!(task.terminated);
}

#[test]
fn unresolvable_session_continues() {
    assert!(should_continue(W, None));
    assert!(should_continue(W, Some(W)));
    assert!(!should_continue(W, Some(2)));
}

#[test]
fn trashed_children_filtered_out() {
    // P has children A and B; B is in the trash, so only A is listed.
    let p = view(2, W, "p", ViewSection::Public);
    let a = view(3, 2, "a", ViewSection::Public);
    let b = view(4, 2, "b", ViewSection::Public);
    let folder = FolderSnapshot {
        views: vec![p, a, b],
        trash: vec![TrashEntry { id: uid(4) }],
    };
    let out = notify_parent_view_did_change(W, &folder, &vec![2]);
    assert_eq!(out.len(), 1);
    assert_eq!(child_ids_of(&out, &uid(2)), vec![uid(3)]);
}

#[test]
fn deletions_under_one_parent_deduplicate() {
    let p = view(2, W, "p", ViewSection::Public);
    let a = view(3, 2, "a", ViewSection::Public);
    let b = view(4, 2, "b", ViewSection::Public);
    let folder = FolderSnapshot { views: vec![p], trash: vec![] };
    let events = vec![ChangeEvent::ViewDeleted { views: vec![a, b] }];
    let out = process_events(W, &folder, &events);
    assert_eq!(count_kind_topic(&out, NotificationKind::DidUpdateChildViews, &uid(2)), 2);
    assert_eq!(count_kind_topic(&out, NotificationKind::DidUpdateView, &uid(2)), 1);
}

#[test]
fn unknown_parent_refresh_is_skipped() {
    // The first parent id resolves to nothing; the second one still gets
    // its listing.
    let q = view(6, W, "q", ViewSection::Private);
    let folder = FolderSnapshot { views: vec![q], trash: vec![] };
    let out = notify_parent_view_did_change(W, &folder, &vec![7, 6]);
    assert_eq!(out.len(), 1);
    assert_eq!(out[0].topic, uid(6));
    assert_eq!(out[0].kind, NotificationKind::DidUpdateView);
}

#[test]
fn unparsable_parent_id_adds_no_refresh() {
    let folder = FolderSnapshot { views: vec![], trash: vec![] };
    let v = FolderView {
        id: uid(3),
        parent_view_id: "not-a-uuid".to_string(),
        name: "v".to_string(),
        section: ViewSection::Public,
    };
    let events = vec![ChangeEvent::ViewCreated { view: v }];
    let out = process_events(W, &folder, &events);
    assert_eq!(out.len(), 1);
    assert_eq!(out[0].kind, NotificationKind::DidUpdateChildViews);
}

#[test]
fn update_notifies_view_and_parent() {
    let p = view(2, W, "p", ViewSection::Public);
    let v = view(3, 2, "v", ViewSection::Public);
    let folder = FolderSnapshot { views: vec![p, v.clone()], trash: vec![] };
    let events = vec![ChangeEvent::ViewUpdated { view: v }];
    let out = process_events(W, &folder, &events);
    assert_eq!(count_kind_topic(&out, NotificationKind::DidUpdateView, &uid(3)), 1);
    assert_eq!(count_kind_topic(&out, NotificationKind::DidUpdateChildViews, &uid(2)), 1);
    assert_eq!(count_kind_topic(&out, NotificationKind::DidUpdateView, &uid(2)), 1);
}

#[test]
fn sync_state_forwarded_on_workspace_topic() {
    let folder = FolderSnapshot { views: vec![], trash: vec![] };
    let events = vec![ChangeEvent::SyncStateChanged { state: SyncState::Finished }];
    let out = process_events(W, &folder, &events);
    assert_eq!(out.len(), 1);
    assert_eq!(out[0].kind, NotificationKind::DidUpdateFolderSyncUpdate);
    assert_eq!(out[0].topic, uid(W));
    assert!(matches!(out[0].payload, Payload::SyncUpdate { state: SyncState::Finished }));
}

#[test]
fn workspace_listings_split_by_section() {
    let a = view(3, W, "a", ViewSection::Public);
    let b = view(4, W, "b", ViewSection::Private);
    let folder = FolderSnapshot { views: vec![a, b], trash: vec![] };
    let w = notify_did_update_workspace(W, &folder);
    assert_eq!(w.topic, uid(W));
    match &w.payload {
        Payload::WorkspaceViews { views } => {
            assert_eq!(views.len(), 1);
            assert_eq!(views[0].id, uid(3));
        },
        _ => panic!("unexpected payload"),
    }
    let s = notify_did_update_section_views(W, &folder);
    assert_eq!(s.len(), 2);
    match &s[1].payload {
        Payload::SectionViews { section, views } => {
            assert_eq!(*section, ViewSection::Private);
            assert_eq!(views.len(), 1);
            assert_eq!(views[0].id, uid(4));
        },
        _ => panic!("unexpected payload"),
    }
}

#[test]
fn child_change_reasons_fill_one_list() {
    let v = view(3, 2, "v", ViewSection::Public);
    let n = notify_child_views_changed(v.clone(), ChildViewChangeReason::Create);
    assert_eq!(n.topic, uid(2));
    assert_eq!(n.kind, NotificationKind::DidUpdateChildViews);
    match &n.payload {
        Payload::ChildViewUpdate { create_child_views, delete_child_views, update_child_views, .. } => {
            assert_eq!(create_child_views.len(), 1);
            assert!(delete_child_views.is_empty());
            assert!(update_child_views.is_empty());
        },
        _ => panic!("unexpected payload"),
    }
    let n = notify_child_views_changed(v.clone(), ChildViewChangeReason::Delete);
    match &n.payload {
        Payload::ChildViewUpdate { create_child_views, delete_child_views, .. } => {
            assert_eq!(delete_child_views, &vec![uid(3)]);
            assert!(create_child_views.is_empty());
        },
        _ => panic!("unexpected payload"),
    }
    let n = notify_child_views_changed(v, ChildViewChangeReason::Update);
    match &n.payload {
        Payload::ChildViewUpdate { update_child_views, .. } => {
            assert_eq!(update_child_views.len(), 1);
            assert_eq!(update_child_views[0].id, uid(3));
        },
        _ => panic!("unexpected payload"),
    }
}
