//! Turns raw change events into notifications: per-event messages first,
//! then one consolidated refresh per affected parent, deduplicated over the
//! whole batch.

use vstd::prelude::*;

use crate::folder::{
    FolderSnapshot, children_of, find_view, lemma_find_view_id, live_children, remove_trashed,
    resolve_views, section_children,
};
use crate::ids::{id_string, id_text, parse_id, parsed_id};
use crate::model::{
    ChangeEvent, FolderView, SyncState, TrashEntry, ViewInfo, ViewSection, id_list, trash_id_list,
    view_infos,
};
use crate::notification::{
    ChildViewChangeReason, Notification, NotificationInfo, NotificationKind, Payload, PayloadInfo,
    child_note, note_infos, notify_child_views_changed, notify_trash_changed,
    notify_view_did_change, trash_note, view_note,
};

verus! {

/// The notification that re-lists the workspace's public views.
pub open spec fn workspace_note(ws: u128, f: FolderSnapshot) -> NotificationInfo {
    NotificationInfo {
        topic: id_text(ws),
        kind: NotificationKind::DidUpdateWorkspaceViews,
        payload: (PayloadInfo::WorkspaceViews {
            views: section_children(f.views@, id_text(ws), ViewSection::Public),
        }),
    }
}

/// The notification that re-lists one section of the workspace.
pub open spec fn section_note(ws: u128, f: FolderSnapshot, section: ViewSection) -> NotificationInfo {
    NotificationInfo {
        topic: id_text(ws),
        kind: NotificationKind::DidUpdateSectionViews,
        payload: (PayloadInfo::SectionViews {
            section: section,
            views: section_children(f.views@, id_text(ws), section),
        }),
    }
}

/// The notification that re-lists a parent view's children, trashed ones
/// removed.
pub open spec fn parent_note(f: FolderSnapshot, parent: ViewInfo) -> NotificationInfo {
    NotificationInfo {
        topic: parent.id,
        kind: NotificationKind::DidUpdateView,
        payload: (PayloadInfo::ViewDetails {
            view: parent,
            child_views: live_children(f, parent.id),
        }),
    }
}

/// The notification that forwards a sync-state snapshot for the workspace.
pub open spec fn sync_note(ws: u128, state: SyncState) -> NotificationInfo {
    NotificationInfo {
        topic: id_text(ws),
        kind: NotificationKind::DidUpdateFolderSyncUpdate,
        payload: PayloadInfo::SyncUpdate { state: state },
    }
}

/// What one entry of the refresh set produces: the workspace id yields the
/// workspace and section listings; a view id yields its child listing, or
/// nothing when the view is gone.
pub open spec fn notes_for_parent(ws: u128, f: FolderSnapshot, pid: u128) -> Seq<NotificationInfo> {
    if pid == ws {
        seq![
            workspace_note(ws, f),
            section_note(ws, f, ViewSection::Public),
            section_note(ws, f, ViewSection::Private),
        ]
    } else {
        match find_view(f.views@, id_text(pid)) {
            Some(parent) => seq![parent_note(f, parent)],
            None => Seq::empty(),
        }
    }
}

/// The notifications for a whole refresh set, in its order.
pub open spec fn refresh_notes(ws: u128, f: FolderSnapshot, parents: Seq<u128>) -> Seq<NotificationInfo>
    decreases parents.len(),
{
    if parents.len() == 0 {
        Seq::empty()
    } else {
        refresh_notes(ws, f, parents.drop_last()) + notes_for_parent(ws, f, parents.last())
    }
}

/// `acc` with `x` appended unless already present.
pub open spec fn dedup_insert(acc: Seq<u128>, x: u128) -> Seq<u128> {
    if acc.contains(x) {
        acc
    } else {
        acc.push(x)
    }
}

/// `acc` with every element of `s` appended in order, duplicates dropped.
pub open spec fn dedup_append(acc: Seq<u128>, s: Seq<u128>) -> Seq<u128>
    decreases s.len(),
{
    if s.len() == 0 {
        acc
    } else {
        dedup_insert(dedup_append(acc, s.drop_last()), s.last())
    }
}

/// `s` with duplicates dropped, keeping first occurrences in order.
pub open spec fn dedup_ids(s: Seq<u128>) -> Seq<u128> {
    dedup_append(Seq::empty(), s)
}

/// The parent ids of `views` that parse as UUIDs, in order, with repeats.
pub open spec fn parent_ids_of(views: Seq<ViewInfo>) -> Seq<u128>
    decreases views.len(),
{
    if views.len() == 0 {
        Seq::empty()
    } else {
        let prefix = parent_ids_of(views.drop_last());
        match parsed_id(views.last().parent_view_id) {
            Some(p) => prefix.push(p),
            None => prefix,
        }
    }
}

/// The sequence a parsed parent id contributes to the refresh set.
pub open spec fn opt_id_seq(o: Option<u128>) -> Seq<u128> {
    match o {
        Some(p) => seq![p],
        None => Seq::empty(),
    }
}

/// The notifications an event produces on its own, before any parent
/// refresh: per-view child messages, the trash summary, or the sync state.
pub open spec fn event_immediate(ws: u128, f: FolderSnapshot, e: ChangeEvent) -> Seq<NotificationInfo> {
    match e {
        ChangeEvent::ViewCreated { view } => seq![
            child_note(view@, ChildViewChangeReason::Create),
        ],
        ChangeEvent::ViewDeleted { views } => views@.map_values(
            |v: FolderView| child_note(v@, ChildViewChangeReason::Delete),
        ),
        ChangeEvent::ViewUpdated { view } => seq![
            view_note(view@),
            child_note(view@, ChildViewChangeReason::Update),
        ],
        ChangeEvent::TrashItemAdded { ids } => seq![trash_note(trash_id_list(f.trash@))],
        ChangeEvent::TrashItemRemoved { ids } => seq![trash_note(trash_id_list(f.trash@))],
        ChangeEvent::SyncStateChanged { state } => seq![sync_note(ws, state)],
    }
}

/// The parent ids an event adds to the refresh set. Deletion and trash
/// events resolve against the snapshot taken before any removal is visible;
/// ids that resolve to nothing contribute nothing.
pub open spec fn event_parents(f: FolderSnapshot, e: ChangeEvent) -> Seq<u128> {
    match e {
        ChangeEvent::ViewCreated { view } => opt_id_seq(parsed_id(view@.parent_view_id)),
        ChangeEvent::ViewDeleted { views } => parent_ids_of(view_infos(views@)),
        ChangeEvent::ViewUpdated { view } => opt_id_seq(parsed_id(view@.parent_view_id)),
        ChangeEvent::TrashItemAdded { ids } => parent_ids_of(resolve_views(f.views@, id_list(ids@))),
        ChangeEvent::TrashItemRemoved { ids } => parent_ids_of(
            resolve_views(f.views@, id_list(ids@)),
        ),
        ChangeEvent::SyncStateChanged { state } => Seq::empty(),
    }
}

/// Everything a batch of events produces before the consolidated refresh.
pub open spec fn batch_immediate(ws: u128, f: FolderSnapshot, events: Seq<ChangeEvent>) -> Seq<NotificationInfo>
    decreases events.len(),
{
    if events.len() == 0 {
        Seq::empty()
    } else {
        batch_immediate(ws, f, events.drop_last()) + event_immediate(ws, f, events.last())
    }
}

/// Every parent id a batch of events touches, in order, with repeats.
pub open spec fn batch_parents(f: FolderSnapshot, events: Seq<ChangeEvent>) -> Seq<u128>
    decreases events.len(),
{
    if events.len() == 0 {
        Seq::empty()
    } else {
        batch_parents(f, events.drop_last()) + event_parents(f, events.last())
    }
}

/// Everything a batch of events produces: the per-event messages in event
/// order, then exactly one refresh per distinct touched parent.
pub open spec fn batch_notes(ws: u128, f: FolderSnapshot, events: Seq<ChangeEvent>) -> Seq<NotificationInfo> {
    batch_immediate(ws, f, events) + refresh_notes(ws, f, dedup_ids(batch_parents(f, events)))
}

/// Appending nothing changes nothing.
pub proof fn lemma_dedup_append_empty(acc: Seq<u128>)
    ensures
        dedup_append(acc, Seq::empty()) == acc,
{
}

/// Appending one element is one insertion.
pub proof fn lemma_dedup_append_one(acc: Seq<u128>, x: u128)
    ensures
        dedup_append(acc, seq![x]) == dedup_insert(acc, x),
{
    assert(seq![x].drop_last() =~= Seq::<u128>::empty());
    lemma_dedup_append_empty(acc);
    assert(seq![x].last() == x);
}

/// Appending distributes over splitting the appended part.
pub proof fn lemma_dedup_append_concat(acc: Seq<u128>, a: Seq<u128>, b: Seq<u128>)
    ensures
        dedup_append(acc, a + b) == dedup_append(dedup_append(acc, a), b),
    decreases b.len(),
{
    if b.len() == 0 {
        assert(a + b =~= a);
    } else {
        lemma_dedup_append_concat(acc, a, b.drop_last());
        assert((a + b).drop_last() =~= a + b.drop_last());
        assert((a + b).last() == b.last());
    }
}

/// Whether a notification's child list avoids `trash`: vacuous for every
/// payload that carries no child list.
pub open spec fn note_trash_safe(n: NotificationInfo, trash: Seq<Seq<char>>) -> bool {
    match n.payload {
        PayloadInfo::ViewDetails { view, child_views } => forall|j: int|
            0 <= j < child_views.len() ==> !trash.contains((#[trigger] child_views[j]).id),
        _ => true,
    }
}

/// Whether every notification of a sequence keeps trashed views out of its
/// child list.
pub open spec fn trash_safe(notes: Seq<NotificationInfo>, trash: Seq<Seq<char>>) -> bool {
    forall|i: int| 0 <= i < notes.len() ==> note_trash_safe(#[trigger] notes[i], trash)
}

proof fn lemma_remove_trashed_safe(children: Seq<ViewInfo>, trash: Seq<Seq<char>>)
    ensures
        forall|j: int| 0 <= j < remove_trashed(children, trash).len() ==> !trash.contains(
            (#[trigger] remove_trashed(children, trash)[j]).id,
        ),
    decreases children.len(),
{
    if children.len() > 0 {
        lemma_remove_trashed_safe(children.drop_last(), trash);
    }
}

proof fn lemma_concat_trash_safe(
    a: Seq<NotificationInfo>,
    b: Seq<NotificationInfo>,
    trash: Seq<Seq<char>>,
)
    requires
        trash_safe(a, trash),
        trash_safe(b, trash),
    ensures
        trash_safe(a + b, trash),
{
    assert forall|i: int| 0 <= i < (a + b).len() implies note_trash_safe((a + b)[i], trash) by {
        if i < a.len() {
            assert((a + b)[i] == a[i]);
        } else {
            assert((a + b)[i] == b[i - a.len()]);
        }
    }
}

proof fn lemma_refresh_trash_safe(ws: u128, f: FolderSnapshot, parents: Seq<u128>)
    ensures
        trash_safe(refresh_notes(ws, f, parents), trash_id_list(f.trash@)),
    decreases parents.len(),
{
    let trash = trash_id_list(f.trash@);
    if parents.len() > 0 {
        lemma_refresh_trash_safe(ws, f, parents.drop_last());
        let head = notes_for_parent(ws, f, parents.last());
        if parents.last() == ws {
            assert(trash_safe(head, trash)) by {
                assert(note_trash_safe(head[0], trash));
                assert(note_trash_safe(head[1], trash));
                assert(note_trash_safe(head[2], trash));
            }
        } else {
            match find_view(f.views@, id_text(parents.last())) {
                Some(parent) => {
                    lemma_remove_trashed_safe(children_of(f.views@, parent.id), trash);
                    assert(note_trash_safe(head[0], trash));
                },
                None => {},
            }
        }
        lemma_concat_trash_safe(refresh_notes(ws, f, parents.drop_last()), head, trash);
    }
}

proof fn lemma_event_immediate_trash_safe(ws: u128, f: FolderSnapshot, e: ChangeEvent)
    ensures
        trash_safe(event_immediate(ws, f, e), trash_id_list(f.trash@)),
{
    let trash = trash_id_list(f.trash@);
    let notes = event_immediate(ws, f, e);
    assert forall|i: int| 0 <= i < notes.len() implies note_trash_safe(notes[i], trash) by {
        match e {
            ChangeEvent::ViewDeleted { views } => {
                assert(notes[i] == child_note(views@[i]@, ChildViewChangeReason::Delete));
            },
            _ => {},
        }
    }
}

proof fn lemma_batch_immediate_trash_safe(ws: u128, f: FolderSnapshot, events: Seq<ChangeEvent>)
    ensures
        trash_safe(batch_immediate(ws, f, events), trash_id_list(f.trash@)),
    decreases events.len(),
{
    if events.len() > 0 {
        lemma_batch_immediate_trash_safe(ws, f, events.drop_last());
        lemma_event_immediate_trash_safe(ws, f, events.last());
        lemma_concat_trash_safe(
            batch_immediate(ws, f, events.drop_last()),
            event_immediate(ws, f, events.last()),
            trash_id_list(f.trash@),
        );
    }
}

/// Trash filtering: among everything a batch produces, a view id in the
/// trash never appears in the child list of a child-list notification.
pub proof fn lemma_trash_filtering(ws: u128, f: FolderSnapshot, events: Seq<ChangeEvent>)
    ensures
        trash_safe(batch_notes(ws, f, events), trash_id_list(f.trash@)),
{
    lemma_batch_immediate_trash_safe(ws, f, events);
    lemma_refresh_trash_safe(ws, f, dedup_ids(batch_parents(f, events)));
    lemma_concat_trash_safe(
        batch_immediate(ws, f, events),
        refresh_notes(ws, f, dedup_ids(batch_parents(f, events))),
        trash_id_list(f.trash@),
    );
}

/// The child-list notifications addressed to `topic`: the consolidated
/// per-parent refreshes a batch carries for that parent.
pub open spec fn child_list_notes(notes: Seq<NotificationInfo>, topic: Seq<char>) -> Seq<NotificationInfo>
    decreases notes.len(),
{
    if notes.len() == 0 {
        Seq::empty()
    } else {
        let prefix = child_list_notes(notes.drop_last(), topic);
        if notes.last().kind is DidUpdateView && notes.last().topic == topic {
            prefix.push(notes.last())
        } else {
            prefix
        }
    }
}

proof fn lemma_child_list_notes_concat(a: Seq<NotificationInfo>, b: Seq<NotificationInfo>, topic: Seq<char>)
    ensures
        child_list_notes(a + b, topic) == child_list_notes(a, topic) + child_list_notes(b, topic),
    decreases b.len(),
{
    if b.len() == 0 {
        assert(a + b =~= a);
        assert(child_list_notes(a, topic) + Seq::<NotificationInfo>::empty() =~= child_list_notes(
            a,
            topic,
        ));
    } else {
        lemma_child_list_notes_concat(a, b.drop_last(), topic);
        assert((a + b).drop_last() =~= a + b.drop_last());
        assert((a + b).last() == b.last());
        assert((child_list_notes(a, topic) + child_list_notes(b.drop_last(), topic)).push(b.last())
            =~= child_list_notes(a, topic) + child_list_notes(b.drop_last(), topic).push(b.last()));
    }
}

proof fn lemma_child_list_notes_empty(notes: Seq<NotificationInfo>, topic: Seq<char>)
    requires
        forall|i: int| 0 <= i < notes.len() ==> !((#[trigger] notes[i]).kind is DidUpdateView
            && notes[i].topic == topic),
    ensures
        child_list_notes(notes, topic) == Seq::<NotificationInfo>::empty(),
    decreases notes.len(),
{
    if notes.len() > 0 {
        assert forall|i: int|
            0 <= i < notes.drop_last().len() implies !((#[trigger] notes.drop_last()[i]).kind
            is DidUpdateView && notes.drop_last()[i].topic == topic) by {
            assert(notes.drop_last()[i] == notes[i]);
        }
        lemma_child_list_notes_empty(notes.drop_last(), topic);
    }
}

/// A view event whose every touched parent is `p`, and which does not
/// update the parent view itself.
pub open spec fn view_event_under(e: ChangeEvent, p: u128) -> bool {
    match e {
        ChangeEvent::ViewCreated { view } => parsed_id(view@.parent_view_id) == Some(p),
        ChangeEvent::ViewUpdated { view } => parsed_id(view@.parent_view_id) == Some(p) && view@.id
            != id_text(p),
        ChangeEvent::ViewDeleted { views } => views@.len() > 0 && (forall|k: int|
            0 <= k < views@.len() ==> parsed_id((#[trigger] views@[k])@.parent_view_id) == Some(p)),
        _ => false,
    }
}

proof fn lemma_event_no_child_list(ws: u128, f: FolderSnapshot, e: ChangeEvent, p: u128)
    requires
        view_event_under(e, p),
    ensures
        child_list_notes(event_immediate(ws, f, e), id_text(p)) == Seq::<NotificationInfo>::empty(),
{
    let notes = event_immediate(ws, f, e);
    assert forall|i: int| 0 <= i < notes.len() implies !((#[trigger] notes[i]).kind
        is DidUpdateView && notes[i].topic == id_text(p)) by {
        match e {
            ChangeEvent::ViewDeleted { views } => {
                assert(notes[i] == child_note(views@[i]@, ChildViewChangeReason::Delete));
            },
            _ => {},
        }
    }
    lemma_child_list_notes_empty(notes, id_text(p));
}

proof fn lemma_batch_no_child_list(ws: u128, f: FolderSnapshot, events: Seq<ChangeEvent>, p: u128)
    requires
        forall|i: int| 0 <= i < events.len() ==> view_event_under(#[trigger] events[i], p),
    ensures
        child_list_notes(batch_immediate(ws, f, events), id_text(p)) == Seq::<NotificationInfo>::empty(),
    decreases events.len(),
{
    if events.len() > 0 {
        assert forall|i: int|
            0 <= i < events.drop_last().len() implies view_event_under(
            #[trigger] events.drop_last()[i],
            p,
        ) by {
            assert(events.drop_last()[i] == events[i]);
        }
        lemma_batch_no_child_list(ws, f, events.drop_last(), p);
        lemma_event_no_child_list(ws, f, events.last(), p);
        lemma_child_list_notes_concat(
            batch_immediate(ws, f, events.drop_last()),
            event_immediate(ws, f, events.last()),
            id_text(p),
        );
        assert(Seq::<NotificationInfo>::empty() + Seq::<NotificationInfo>::empty()
            =~= Seq::<NotificationInfo>::empty());
    }
}

proof fn lemma_parent_ids_all(views: Seq<ViewInfo>, p: u128)
    requires
        forall|k: int| 0 <= k < views.len() ==> parsed_id(
            (#[trigger] views[k]).parent_view_id,
        ) == Some(p),
    ensures
        parent_ids_of(views).len() == views.len(),
        forall|k: int| 0 <= k < parent_ids_of(views).len() ==> parent_ids_of(views)[k] == p,
    decreases views.len(),
{
    if views.len() > 0 {
        assert forall|k: int|
            0 <= k < views.drop_last().len() implies parsed_id(
            (#[trigger] views.drop_last()[k]).parent_view_id,
        ) == Some(p) by {
            assert(views.drop_last()[k] == views[k]);
        }
        lemma_parent_ids_all(views.drop_last(), p);
    }
}

proof fn lemma_batch_parents_all(f: FolderSnapshot, events: Seq<ChangeEvent>, p: u128)
    requires
        forall|i: int| 0 <= i < events.len() ==> view_event_under(#[trigger] events[i], p),
    ensures
        batch_parents(f, events).len() >= events.len(),
        forall|k: int| 0 <= k < batch_parents(f, events).len() ==> batch_parents(f, events)[k]
            == p,
    decreases events.len(),
{
    if events.len() > 0 {
        assert forall|i: int|
            0 <= i < events.drop_last().len() implies view_event_under(
            #[trigger] events.drop_last()[i],
            p,
        ) by {
            assert(events.drop_last()[i] == events[i]);
        }
        lemma_batch_parents_all(f, events.drop_last(), p);
        let ep = event_parents(f, events.last());
        assert(ep.len() >= 1 && forall|k: int| 0 <= k < ep.len() ==> ep[k] == p) by {
            match events.last() {
                ChangeEvent::ViewDeleted { views } => {
                    assert forall|k: int|
                        0 <= k < view_infos(views@).len() implies parsed_id(
                        (#[trigger] view_infos(views@)[k]).parent_view_id,
                    ) == Some(p) by {
                        assert(view_infos(views@)[k] == views@[k]@);
                    }
                    lemma_parent_ids_all(view_infos(views@), p);
                },
                _ => {},
            }
        }
    }
}

proof fn lemma_dedup_all_same(s: Seq<u128>, p: u128)
    requires
        s.len() > 0,
        forall|k: int| 0 <= k < s.len() ==> s[k] == p,
    ensures
        dedup_ids(s) == seq![p],
    decreases s.len(),
{
    if s.len() == 1 {
        assert(s =~= seq![p]);
        lemma_dedup_append_one(Seq::empty(), p);
        assert(!Seq::<u128>::empty().contains(p));
        assert(Seq::<u128>::empty().push(p) =~= seq![p]);
    } else {
        assert forall|k: int| 0 <= k < s.drop_last().len() implies s.drop_last()[k] == p by {
            assert(s.drop_last()[k] == s[k]);
        }
        lemma_dedup_all_same(s.drop_last(), p);
        assert(s.last() == s[s.len() - 1]);
        assert(dedup_append(Seq::<u128>::empty(), s) == dedup_insert(
            dedup_append(Seq::<u128>::empty(), s.drop_last()),
            s.last(),
        ));
        assert(seq![p][0] == p);
        assert(seq![p].contains(p));
    }
}

/// Dedup: a batch of view events all under one live parent other than the
/// workspace yields exactly one child-list refresh for that parent, and it
/// carries the parent's post-batch children with trashed ones removed.
pub proof fn lemma_refresh_dedup(ws: u128, f: FolderSnapshot, events: Seq<ChangeEvent>, p: u128)
    requires
        events.len() > 0,
        p != ws,
        find_view(f.views@, id_text(p)) is Some,
        forall|i: int| 0 <= i < events.len() ==> view_event_under(#[trigger] events[i], p),
    ensures
        child_list_notes(batch_notes(ws, f, events), id_text(p)) == seq![
            parent_note(f, find_view(f.views@, id_text(p)).unwrap()),
        ],
{
    let topic = id_text(p);
    let parent = find_view(f.views@, topic).unwrap();
    lemma_batch_no_child_list(ws, f, events, p);
    lemma_batch_parents_all(f, events, p);
    lemma_dedup_all_same(batch_parents(f, events), p);
    let refresh = refresh_notes(ws, f, dedup_ids(batch_parents(f, events)));
    assert(refresh == seq![parent_note(f, parent)]) by {
        assert(seq![p].drop_last() =~= Seq::<u128>::empty());
        assert(refresh_notes(ws, f, Seq::empty()) == Seq::<NotificationInfo>::empty());
        assert(seq![p].last() == p);
        assert(Seq::<NotificationInfo>::empty() + notes_for_parent(ws, f, p) =~= notes_for_parent(
            ws,
            f,
            p,
        ));
    }
    lemma_child_list_notes_concat(batch_immediate(ws, f, events), refresh, topic);
    lemma_find_view_id(f.views@, topic);
    assert(child_list_notes(refresh, topic) == seq![parent_note(f, parent)]) by {
        assert(refresh.drop_last() =~= Seq::<NotificationInfo>::empty());
        assert(child_list_notes(Seq::empty(), topic) == Seq::<NotificationInfo>::empty());
        assert(refresh.last() == parent_note(f, parent));
        assert(Seq::<NotificationInfo>::empty().push(parent_note(f, parent)) =~= seq![
            parent_note(f, parent),
        ]);
    }
    assert(Seq::<NotificationInfo>::empty() + child_list_notes(refresh, topic)
        =~= child_list_notes(refresh, topic));
}

fn is_trashed(trash: &Vec<TrashEntry>, id: &String) -> (r: bool)
    ensures
        r == trash_id_list(trash@).contains(id@),
{
    let mut found = false;
    let n = trash.len();
    for i in 0..n
        invariant
            n == trash.len(),
            found == (exists|k: int| 0 <= k < i && trash@[k]@ == id@),
    {
        if trash[i].id == *id {
            found = true;
        }
    }
    proof {
        if found {
            let k = choose|k: int| 0 <= k < n && trash@[k]@ == id@;
            assert(trash_id_list(trash@)[k] == id@);
        } else {
            if trash_id_list(trash@).contains(id@) {
                let k = choose|k: int| 0 <= k < trash_id_list(trash@).len()
                    && trash_id_list(trash@)[k] == id@;
                assert(trash@[k]@ == id@);
            }
        }
    }
    found
}

fn filter_trashed(children: Vec<FolderView>, trash: &Vec<TrashEntry>) -> (r: Vec<FolderView>)
    ensures
        view_infos(r@) == remove_trashed(view_infos(children@), trash_id_list(trash@)),
{
    let mut out: Vec<FolderView> = Vec::new();
    let n = children.len();
    for i in 0..n
        invariant
            n == children.len(),
            view_infos(out@) == remove_trashed(
                view_infos(children@.take(i as int)),
                trash_id_list(trash@),
            ),
    {
        assert(view_infos(children@.take(i + 1)) =~= view_infos(children@.take(i as int)).push(
            children@[i as int]@,
        ));
        assert(view_infos(children@.take(i + 1)).drop_last() =~= view_infos(
            children@.take(i as int),
        ));
        if !is_trashed(trash, &children[i].id) {
            let ghost prev = out@;
            out.push(children[i].clone());
            assert(view_infos(out@) =~= view_infos(prev).push(children@[i as int]@));
        }
    }
    assert(children@.take(n as int) =~= children@);
    out
}

fn push_unique(acc: &mut Vec<u128>, x: u128)
    ensures
        final(acc)@ == dedup_insert(old(acc)@, x),
{
    let mut found = false;
    let n = acc.len();
    for i in 0..n
        invariant
            n == acc.len(),
            acc@ == old(acc)@,
            found == (exists|k: int| 0 <= k < i && acc@[k] == x),
    {
        if acc[i] == x {
            found = true;
        }
    }
    proof {
        if found {
            let k = choose|k: int| 0 <= k < n && acc@[k] == x;
            assert(acc@.contains(x));
        } else {
            if acc@.contains(x) {
                let k = choose|k: int| 0 <= k < acc@.len() && acc@[k] == x;
            }
        }
    }
    if !found {
        acc.push(x);
    }
}

/// Builds the workspace-level listing of public views.
pub fn notify_did_update_workspace(workspace_id: u128, folder: &FolderSnapshot) -> (n: Notification)
    ensures
        n@ == workspace_note(workspace_id, *folder),
{
    let topic = id_string(workspace_id);
    let views = folder.get_section_views_belong_to(&topic, ViewSection::Public);
    Notification {
        topic,
        kind: NotificationKind::DidUpdateWorkspaceViews,
        payload: Payload::WorkspaceViews { views },
    }
}

/// Builds the two section listings of the workspace: one with its public
/// views, one with its private views.
pub fn notify_did_update_section_views(workspace_id: u128, folder: &FolderSnapshot) -> (out: Vec<Notification>)
    ensures
        note_infos(out@) == seq![
            section_note(workspace_id, *folder, ViewSection::Public),
            section_note(workspace_id, *folder, ViewSection::Private),
        ],
{
    let topic = id_string(workspace_id);
    let public_views = folder.get_section_views_belong_to(&topic, ViewSection::Public);
    let private_views = folder.get_section_views_belong_to(&topic, ViewSection::Private);
    let mut out: Vec<Notification> = Vec::new();
    out.push(Notification {
        topic: topic.clone(),
        kind: NotificationKind::DidUpdateSectionViews,
        payload: (Payload::SectionViews { section: ViewSection::Public, views: public_views }),
    });
    out.push(Notification {
        topic,
        kind: NotificationKind::DidUpdateSectionViews,
        payload: (Payload::SectionViews { section: ViewSection::Private, views: private_views }),
    });
    assert(note_infos(out@) =~= seq![
        section_note(workspace_id, *folder, ViewSection::Public),
        section_note(workspace_id, *folder, ViewSection::Private),
    ]);
    out
}

/// Builds the refresh notifications for a list of parent ids: the workspace
/// id yields the workspace and section listings, a view id yields its
/// child listing with trashed children removed, and an id whose view is
/// gone yields nothing.
pub fn notify_parent_view_did_change(
    workspace_id: u128,
    folder: &FolderSnapshot,
    parent_view_ids: &Vec<u128>,
) -> (out: Vec<Notification>)
    ensures
        note_infos(out@) == refresh_notes(workspace_id, *folder, parent_view_ids@),
{
    let trash = folder.get_all_trash_sections();
    let mut out: Vec<Notification> = Vec::new();
    let n = parent_view_ids.len();
    for i in 0..n
        invariant
            n == parent_view_ids.len(),
            trash_id_list(trash@) == trash_id_list(folder.trash@),
            note_infos(out@) == refresh_notes(
                workspace_id,
                *folder,
                parent_view_ids@.take(i as int),
            ),
    {
        assert(parent_view_ids@.take(i + 1).drop_last() =~= parent_view_ids@.take(i as int));
        let pid = parent_view_ids[i];
        let ghost prev = out@;
        if pid == workspace_id {
            let w = notify_did_update_workspace(workspace_id, folder);
            out.push(w);
            let mut s = notify_did_update_section_views(workspace_id, folder);
            let ghost s0 = s@;
            out.append(&mut s);
            assert(out@ =~= prev.push(w) + s0);
            assert(note_infos(out@) =~= note_infos(prev).push(w@) + note_infos(s0));
            assert(note_infos(out@) =~= note_infos(prev) + notes_for_parent(
                workspace_id,
                *folder,
                pid,
            ));
        } else {
            let topic = id_string(pid);
            match folder.get_view(&topic) {
                Some(parent_view) => {
                    proof {
                        lemma_find_view_id(folder.views@, topic@);
                        assert(parent_view@.id == id_text(pid));
                    }
                    let children = folder.get_views_belong_to(&topic);
                    let filtered = filter_trashed(children, &trash);
                    assert(view_infos(filtered@) == live_children(*folder, parent_view@.id));
                    out.push(Notification {
                        topic,
                        kind: NotificationKind::DidUpdateView,
                        payload: (Payload::ViewDetails {
                            view: parent_view,
                            child_views: filtered,
                        }),
                    });
                    assert(out@.last()@ == parent_note(*folder, parent_view@));
                    assert(note_infos(out@) =~= note_infos(prev) + notes_for_parent(
                        workspace_id,
                        *folder,
                        pid,
                    ));
                },
                None => {
                    assert(note_infos(out@) =~= note_infos(prev) + notes_for_parent(
                        workspace_id,
                        *folder,
                        pid,
                    ));
                },
            }
        }
    }
    assert(parent_view_ids@.take(n as int) =~= parent_view_ids@);
    out
}

/// Processes one event against the snapshot: returns its immediate
/// notifications and folds the parents it touches into `refresh`,
/// keeping first occurrences only.
pub fn aggregate_event(
    workspace_id: u128,
    folder: &FolderSnapshot,
    event: &ChangeEvent,
    refresh: &mut Vec<u128>,
) -> (out: Vec<Notification>)
    ensures
        note_infos(out@) == event_immediate(workspace_id, *folder, *event),
        final(refresh)@ == dedup_append(old(refresh)@, event_parents(*folder, *event)),
{
    let mut out: Vec<Notification> = Vec::new();
    match event {
        ChangeEvent::ViewCreated { view } => {
            out.push(notify_child_views_changed(view.clone(), ChildViewChangeReason::Create));
            match parse_id(&view.parent_view_id) {
                Some(p) => {
                    push_unique(refresh, p);
                    proof {
                        lemma_dedup_append_one(old(refresh)@, p);
                        assert(event_parents(*folder, *event) == seq![p]);
                    }
                },
                None => {
                    proof {
                        lemma_dedup_append_empty(old(refresh)@);
                    }
                },
            }
            assert(note_infos(out@) =~= event_immediate(workspace_id, *folder, *event));
        },
        ChangeEvent::ViewDeleted { views } => {
            let ghost old_refresh = refresh@;
            let n = views.len();
            for i in 0..n
                invariant
                    n == views.len(),
                    note_infos(out@) =~= views@.take(i as int).map_values(
                        |v: FolderView| child_note(v@, ChildViewChangeReason::Delete),
                    ),
                    refresh@ == dedup_append(
                        old_refresh,
                        parent_ids_of(view_infos(views@.take(i as int))),
                    ),
            {
                assert(view_infos(views@.take(i + 1)) =~= view_infos(views@.take(i as int)).push(
                    views@[i as int]@,
                ));
                assert(view_infos(views@.take(i + 1)).drop_last() =~= view_infos(
                    views@.take(i as int),
                ));
                let ghost prev = out@;
                out.push(notify_child_views_changed(
                    views[i].clone(),
                    ChildViewChangeReason::Delete,
                ));
                assert(note_infos(out@) =~= note_infos(prev).push(child_note(
                    views@[i as int]@,
                    ChildViewChangeReason::Delete,
                )));
                assert(views@.take(i + 1).map_values(
                    |v: FolderView| child_note(v@, ChildViewChangeReason::Delete),
                ) =~= views@.take(i as int).map_values(
                    |v: FolderView| child_note(v@, ChildViewChangeReason::Delete),
                ).push(child_note(views@[i as int]@, ChildViewChangeReason::Delete)));
                let ghost ps = parent_ids_of(view_infos(views@.take(i as int)));
                match parse_id(&views[i].parent_view_id) {
                    Some(p) => {
                        push_unique(refresh, p);
                        assert(ps.push(p).drop_last() =~= ps);
                        assert(parent_ids_of(view_infos(views@.take(i + 1))) == ps.push(p));
                    },
                    None => {},
                }
            }
            assert(views@.take(n as int) =~= views@);
        },
        ChangeEvent::ViewUpdated { view } => {
            out.push(notify_view_did_change(view.clone()));
            out.push(notify_child_views_changed(view.clone(), ChildViewChangeReason::Update));
            match parse_id(&view.parent_view_id) {
                Some(p) => {
                    push_unique(refresh, p);
                    proof {
                        lemma_dedup_append_one(old(refresh)@, p);
                        assert(event_parents(*folder, *event) == seq![p]);
                    }
                },
                None => {
                    proof {
                        lemma_dedup_append_empty(old(refresh)@);
                    }
                },
            }
            assert(note_infos(out@) =~= event_immediate(workspace_id, *folder, *event));
        },
        ChangeEvent::TrashItemAdded { ids } => {
            collect_trash_parents(folder, ids, refresh);
            out.push(notify_trash_changed(folder.get_my_trash_info()));
            assert(note_infos(out@) =~= event_immediate(workspace_id, *folder, *event));
        },
        ChangeEvent::TrashItemRemoved { ids } => {
            collect_trash_parents(folder, ids, refresh);
            out.push(notify_trash_changed(folder.get_my_trash_info()));
            assert(note_infos(out@) =~= event_immediate(workspace_id, *folder, *event));
        },
        ChangeEvent::SyncStateChanged { state } => {
            out.push(Notification {
                topic: id_string(workspace_id),
                kind: NotificationKind::DidUpdateFolderSyncUpdate,
                payload: Payload::SyncUpdate { state: *state },
            });
            proof {
                lemma_dedup_append_empty(old(refresh)@);
            }
            assert(note_infos(out@) =~= event_immediate(workspace_id, *folder, *event));
        },
    }
    out
}

fn collect_trash_parents(folder: &FolderSnapshot, ids: &Vec<String>, refresh: &mut Vec<u128>)
    ensures
        final(refresh)@ == dedup_append(
            old(refresh)@,
            parent_ids_of(resolve_views(folder.views@, id_list(ids@))),
        ),
{
    let views = folder.get_views(ids);
    let ghost resolved = resolve_views(folder.views@, id_list(ids@));
    let ghost old_refresh = refresh@;
    let n = views.len();
    for i in 0..n
        invariant
            n == views.len(),
            view_infos(views@) == resolved,
            refresh@ == dedup_append(old_refresh, parent_ids_of(resolved.take(i as int))),
    {
        assert(resolved.take(i + 1).drop_last() =~= resolved.take(i as int));
        assert(resolved.take(i + 1).last() == views@[i as int]@);
        let ghost ps = parent_ids_of(resolved.take(i as int));
        match parse_id(&views[i].parent_view_id) {
            Some(p) => {
                push_unique(refresh, p);
                assert(ps.push(p).drop_last() =~= ps);
                assert(parent_ids_of(resolved.take(i + 1)) == ps.push(p));
            },
            None => {},
        }
    }
    assert(resolved.take(n as int) =~= resolved);
}

/// Processes a batch of events in order: every per-event notification
/// first, then exactly one refresh per distinct parent the batch touched.
pub fn process_events(
    workspace_id: u128,
    folder: &FolderSnapshot,
    events: &Vec<ChangeEvent>,
) -> (out: Vec<Notification>)
    ensures
        note_infos(out@) == batch_notes(workspace_id, *folder, events@),
{
    let mut out: Vec<Notification> = Vec::new();
    let mut refresh: Vec<u128> = Vec::new();
    let n = events.len();
    for i in 0..n
        invariant
            n == events.len(),
            note_infos(out@) == batch_immediate(workspace_id, *folder, events@.take(i as int)),
            refresh@ == dedup_append(
                Seq::<u128>::empty(),
                batch_parents(*folder, events@.take(i as int)),
            ),
    {
        assert(events@.take(i + 1).drop_last() =~= events@.take(i as int));
        let ghost prev = out@;
        let mut ns = aggregate_event(workspace_id, folder, &events[i], &mut refresh);
        let ghost added = ns@;
        out.append(&mut ns);
        assert(note_infos(out@) =~= note_infos(prev) + note_infos(added));
        proof {
            lemma_dedup_append_concat(
                Seq::<u128>::empty(),
                batch_parents(*folder, events@.take(i as int)),
                event_parents(*folder, events@[i as int]),
            );
        }
    }
    assert(events@.take(n as int) =~= events@);
    let mut rs = notify_parent_view_did_change(workspace_id, folder, &refresh);
    let ghost prev = out@;
    let ghost added = rs@;
    out.append(&mut rs);
    assert(note_infos(out@) =~= note_infos(prev) + note_infos(added));
    out
}

} // verus!
