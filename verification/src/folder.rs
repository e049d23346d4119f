//! A read-only snapshot of the shared store: the views it holds and its
//! trash section, with the query surface the bridge needs.

use vstd::prelude::*;

use crate::model::{FolderView, TrashEntry, ViewInfo, ViewSection, id_list, view_infos};

verus! {

/// What the bridge reads of the shared folder: every view, and every trash
/// entry. The store's own write path produces these values; the bridge only
/// queries them.
pub struct FolderSnapshot {
    pub views: Vec<FolderView>,
    pub trash: Vec<TrashEntry>,
}

/// The first view among `views` whose id is `id`, if any.
pub open spec fn find_view(views: Seq<FolderView>, id: Seq<char>) -> Option<ViewInfo>
    decreases views.len(),
{
    if views.len() == 0 {
        None
    } else {
        let prefix = find_view(views.drop_last(), id);
        if prefix is Some {
            prefix
        } else if views.last()@.id == id {
            Some(views.last()@)
        } else {
            None
        }
    }
}

/// The direct children of `parent` among `views`, in store order.
pub open spec fn children_of(views: Seq<FolderView>, parent: Seq<char>) -> Seq<ViewInfo>
    decreases views.len(),
{
    if views.len() == 0 {
        Seq::empty()
    } else {
        let prefix = children_of(views.drop_last(), parent);
        if views.last()@.parent_view_id == parent {
            prefix.push(views.last()@)
        } else {
            prefix
        }
    }
}

/// The direct children of `parent` that belong to `section`.
pub open spec fn section_children(
    views: Seq<FolderView>,
    parent: Seq<char>,
    section: ViewSection,
) -> Seq<ViewInfo>
    decreases views.len(),
{
    if views.len() == 0 {
        Seq::empty()
    } else {
        let prefix = section_children(views.drop_last(), parent, section);
        if views.last()@.parent_view_id == parent && views.last()@.section == section {
            prefix.push(views.last()@)
        } else {
            prefix
        }
    }
}

/// The views in `children` whose ids are not among `trash`.
pub open spec fn remove_trashed(children: Seq<ViewInfo>, trash: Seq<Seq<char>>) -> Seq<ViewInfo>
    decreases children.len(),
{
    if children.len() == 0 {
        Seq::empty()
    } else {
        let prefix = remove_trashed(children.drop_last(), trash);
        if trash.contains(children.last().id) {
            prefix
        } else {
            prefix.push(children.last())
        }
    }
}

/// The views resolved from `ids`, in the order of `ids`, skipping ids that
/// resolve to nothing.
pub open spec fn resolve_views(views: Seq<FolderView>, ids: Seq<Seq<char>>) -> Seq<ViewInfo>
    decreases ids.len(),
{
    if ids.len() == 0 {
        Seq::empty()
    } else {
        let prefix = resolve_views(views, ids.drop_last());
        match find_view(views, ids.last()) {
            Some(v) => prefix.push(v),
            None => prefix,
        }
    }
}

/// A view found under an id carries that id.
pub proof fn lemma_find_view_id(views: Seq<FolderView>, id: Seq<char>)
    ensures
        find_view(views, id) matches Some(v) ==> v.id == id,
    decreases views.len(),
{
    if views.len() > 0 {
        lemma_find_view_id(views.drop_last(), id);
    }
}

/// The direct children of `parent`, with every trashed view removed.
pub open spec fn live_children(f: FolderSnapshot, parent: Seq<char>) -> Seq<ViewInfo> {
    remove_trashed(children_of(f.views@, parent), crate::model::trash_id_list(f.trash@))
}

impl FolderSnapshot {
    /// Resolves one view by id; `None` on an unknown id.
    pub fn get_view(&self, id: &String) -> (r: Option<FolderView>)
        ensures
            (match r {
                Some(v) => find_view(self.views@, id@) == Some(v@),
                None => find_view(self.views@, id@) is None,
            }),
    {
        let mut found: Option<FolderView> = None;
        let n = self.views.len();
        for i in 0..n
            invariant
                n == self.views.len(),
                (match found {
                    Some(v) => find_view(self.views@.take(i as int), id@) == Some(v@),
                    None => find_view(self.views@.take(i as int), id@) is None,
                }),
        {
            assert(self.views@.take(i + 1).drop_last() =~= self.views@.take(i as int));
            if found.is_none() && self.views[i].id == *id {
                found = Some(self.views[i].clone());
            }
        }
        assert(self.views@.take(n as int) =~= self.views@);
        found
    }

    /// Resolves a set of ids to the views found among them; ids that resolve
    /// to nothing are skipped.
    pub fn get_views(&self, ids: &Vec<String>) -> (r: Vec<FolderView>)
        ensures
            view_infos(r@) == resolve_views(self.views@, id_list(ids@)),
    {
        let mut out: Vec<FolderView> = Vec::new();
        let n = ids.len();
        for i in 0..n
            invariant
                n == ids.len(),
                view_infos(out@) == resolve_views(self.views@, id_list(ids@.take(i as int))),
        {
            assert(id_list(ids@.take(i + 1)) =~= id_list(ids@.take(i as int)).push(ids@[i as int]@));
            assert(id_list(ids@.take(i + 1)).drop_last() =~= id_list(ids@.take(i as int)));
            match self.get_view(&ids[i]) {
                Some(v) => {
                    let ghost prev = out@;
                    out.push(v);
                    assert(view_infos(out@) =~= view_infos(prev).push(v@));
                },
                None => {},
            }
        }
        assert(id_list(ids@.take(n as int)) =~= id_list(ids@));
        out
    }

    /// The direct children of `parent_id`, one level only.
    pub fn get_views_belong_to(&self, parent_id: &String) -> (r: Vec<FolderView>)
        ensures
            view_infos(r@) == children_of(self.views@, parent_id@),
    {
        let mut out: Vec<FolderView> = Vec::new();
        let n = self.views.len();
        for i in 0..n
            invariant
                n == self.views.len(),
                view_infos(out@) == children_of(self.views@.take(i as int), parent_id@),
        {
            assert(self.views@.take(i + 1).drop_last() =~= self.views@.take(i as int));
            if self.views[i].parent_view_id == *parent_id {
                let ghost prev = out@;
                out.push(self.views[i].clone());
                assert(view_infos(out@) =~= view_infos(prev).push(self.views@[i as int]@));
            }
        }
        assert(self.views@.take(n as int) =~= self.views@);
        out
    }

    /// The direct children of `parent_id` that belong to `section`.
    pub fn get_section_views_belong_to(
        &self,
        parent_id: &String,
        section: ViewSection,
    ) -> (r: Vec<FolderView>)
        ensures
            view_infos(r@) == section_children(self.views@, parent_id@, section),
    {
        let mut out: Vec<FolderView> = Vec::new();
        let n = self.views.len();
        for i in 0..n
            invariant
                n == self.views.len(),
                view_infos(out@) == section_children(self.views@.take(i as int), parent_id@, section),
        {
            assert(self.views@.take(i + 1).drop_last() =~= self.views@.take(i as int));
            if self.views[i].parent_view_id == *parent_id && self.views[i].section == section {
                let ghost prev = out@;
                out.push(self.views[i].clone());
                assert(view_infos(out@) =~= view_infos(prev).push(self.views@[i as int]@));
            }
        }
        assert(self.views@.take(n as int) =~= self.views@);
        out
    }

    /// Every entry of the trash section.
    pub fn get_all_trash_sections(&self) -> (r: Vec<TrashEntry>)
        ensures
            crate::model::trash_id_list(r@) == crate::model::trash_id_list(self.trash@),
    {
        let mut out: Vec<TrashEntry> = Vec::new();
        let n = self.trash.len();
        for i in 0..n
            invariant
                n == self.trash.len(),
                crate::model::trash_id_list(out@) == crate::model::trash_id_list(self.trash@.take(i as int)),
        {
            let ghost prev = out@;
            out.push(self.trash[i].clone());
            assert(crate::model::trash_id_list(out@) =~= crate::model::trash_id_list(prev).push(self.trash@[i as int]@));
            assert(crate::model::trash_id_list(self.trash@.take(i + 1)) =~= crate::model::trash_id_list(self.trash@.take(i as int)).push(self.trash@[i as int]@));
        }
        assert(self.trash@.take(n as int) =~= self.trash@);
        out
    }

    /// The current summary of the user's trash, forwarded opaquely in trash
    /// notifications.
    pub fn get_my_trash_info(&self) -> (r: Vec<TrashEntry>)
        ensures
            crate::model::trash_id_list(r@) == crate::model::trash_id_list(self.trash@),
    {
        self.get_all_trash_sections()
    }
}

} // verus!
