//! The subscription state machine. One task owns one raw event stream, the
//! workspace identity it was started for, a weak handle to the store and a
//! weak handle to the session. The loop that waits on the stream lives
//! outside; every decision it takes per event is here.

use vstd::prelude::*;

use crate::aggregator::{
    aggregate_event, dedup_append, dedup_ids, event_immediate, event_parents,
    notify_parent_view_did_change, refresh_notes,
};
use crate::folder::FolderSnapshot;
use crate::model::ChangeEvent;
use crate::notification::{Notification, NotificationInfo, note_infos};

verus! {

/// The per-subscription filter: continue unless the session's current
/// workspace id resolved and differs from the subscribed one. An
/// unresolvable session is no confirmed mismatch, so it continues.
pub open spec fn guard_passes(subscribed: u128, current: Option<u128>) -> bool {
    match current {
        Option::None => true,
        Option::Some(c) => c == subscribed,
    }
}

/// Decides whether a subscription keeps processing: `current_workspace_id`
/// is the session's current workspace, or `None` when the session or its
/// workspace could not be resolved.
pub fn should_continue(subscribed_workspace_id: u128, current_workspace_id: Option<u128>) -> (r: bool)
    ensures
        r == guard_passes(subscribed_workspace_id, current_workspace_id),
{
    match current_workspace_id {
        Some(c) => c == subscribed_workspace_id,
        None => true,
    }
}

/// Everything one processed event produces: its immediate notifications,
/// then one refresh per distinct parent it touched.
pub open spec fn event_notes(ws: u128, f: FolderSnapshot, e: ChangeEvent) -> Seq<NotificationInfo> {
    event_immediate(ws, f, e) + refresh_notes(ws, f, dedup_ids(event_parents(f, e)))
}

/// One long-lived observer bound to one workspace identity. `terminated`
/// is absorbing: no event revives a stopped task.
pub struct SubscriptionTask {
    pub workspace_id: u128,
    pub terminated: bool,
}

/// What one delivered event finds: the store snapshot if the weak store
/// handle still resolves, the session's current workspace if it does, and
/// the event itself.
pub struct StepInput {
    pub store: Option<FolderSnapshot>,
    pub current_workspace: Option<u128>,
    pub event: ChangeEvent,
}

/// Whether a step stops the task: it was already stopped, the store is
/// gone, or the workspace moved.
pub open spec fn step_terminates(t: SubscriptionTask, inp: StepInput) -> bool {
    t.terminated || inp.store is None || !guard_passes(t.workspace_id, inp.current_workspace)
}

/// The task after one step.
pub open spec fn next_task(t: SubscriptionTask, inp: StepInput) -> SubscriptionTask {
    SubscriptionTask { workspace_id: t.workspace_id, terminated: step_terminates(t, inp) }
}

/// What one step emits: nothing when it stops (the in-flight event is
/// dropped, not processed), else the event's notifications.
pub open spec fn step_notes(t: SubscriptionTask, inp: StepInput) -> Seq<NotificationInfo> {
    if step_terminates(t, inp) {
        Seq::empty()
    } else {
        event_notes(t.workspace_id, inp.store.unwrap(), inp.event)
    }
}

/// What each step of a whole run emits, step by step.
pub open spec fn run_notes(t: SubscriptionTask, inputs: Seq<StepInput>) -> Seq<Seq<NotificationInfo>>
    decreases inputs.len(),
{
    if inputs.len() == 0 {
        Seq::empty()
    } else {
        seq![step_notes(t, inputs.first())] + run_notes(next_task(t, inputs.first()), inputs.drop_first())
    }
}

impl SubscriptionTask {
    /// A fresh running subscription for one workspace.
    pub fn new(workspace_id: u128) -> (t: Self)
        ensures
            t.workspace_id == workspace_id,
            !t.terminated,
    {
        SubscriptionTask { workspace_id, terminated: false }
    }

    /// Processes one delivered event. `store` is the snapshot behind the
    /// weak store handle, or `None` when the handle no longer resolves;
    /// `current_workspace_id` is the session's current workspace, or `None`
    /// when the session is gone. A stopped task stays stopped and emits
    /// nothing; a vanished store or a confirmed workspace mismatch stops
    /// the task and drops the event; otherwise the event's notifications
    /// come back and the task keeps running.
    pub fn on_event(
        &mut self,
        store: Option<&FolderSnapshot>,
        current_workspace_id: Option<u128>,
        event: &ChangeEvent,
    ) -> (out: Vec<Notification>)
        ensures
            final(self).workspace_id == old(self).workspace_id,
            final(self).terminated == (old(self).terminated || store is None || !guard_passes(
                old(self).workspace_id,
                current_workspace_id,
            )),
            (old(self).terminated || store is None || !guard_passes(
                old(self).workspace_id,
                current_workspace_id,
            )) ==> out@.len() == 0,
            (!old(self).terminated && store is Some && guard_passes(
                old(self).workspace_id,
                current_workspace_id,
            )) ==> note_infos(out@) == event_notes(
                old(self).workspace_id,
                *store.unwrap(),
                *event,
            ),
    {
        if self.terminated {
            return Vec::new();
        }
        match store {
            None => {
                self.terminated = true;
                Vec::new()
            },
            Some(folder) => {
                if !should_continue(self.workspace_id, current_workspace_id) {
                    self.terminated = true;
                    Vec::new()
                } else {
                    let mut refresh: Vec<u128> = Vec::new();
                    let mut out = aggregate_event(self.workspace_id, folder, event, &mut refresh);
                    let mut rs = notify_parent_view_did_change(self.workspace_id, folder, &refresh);
                    let ghost prev = out@;
                    let ghost added = rs@;
                    out.append(&mut rs);
                    assert(note_infos(out@) =~= note_infos(prev) + note_infos(added));
                    out
                }
            },
        }
    }

    /// The stream closed: no more events will ever arrive, so the task
    /// stops.
    pub fn on_stream_closed(&mut self)
        ensures
            final(self).workspace_id == old(self).workspace_id,
            final(self).terminated,
    {
        self.terminated = true;
    }
}

/// The length of a run's output matches its input.
pub proof fn lemma_run_notes_len(t: SubscriptionTask, inputs: Seq<StepInput>)
    ensures
        run_notes(t, inputs).len() == inputs.len(),
    decreases inputs.len(),
{
    if inputs.len() > 0 {
        lemma_run_notes_len(next_task(t, inputs.first()), inputs.drop_first());
    }
}

/// A stopped task emits nothing for the rest of its run.
pub proof fn lemma_terminated_silent(t: SubscriptionTask, inputs: Seq<StepInput>)
    requires
        t.terminated,
    ensures
        forall|j: int| 0 <= j < run_notes(t, inputs).len() ==> run_notes(t, inputs)[j].len() == 0,
    decreases inputs.len(),
{
    if inputs.len() > 0 {
        let rest = run_notes(next_task(t, inputs.first()), inputs.drop_first());
        lemma_terminated_silent(next_task(t, inputs.first()), inputs.drop_first());
        assert forall|j: int|
            0 <= j < run_notes(t, inputs).len() implies run_notes(t, inputs)[j].len() == 0 by {
            if j >= 1 {
                assert(run_notes(t, inputs)[j] == rest[j - 1]);
            }
        }
    }
}

proof fn lemma_fatal_input_silences(t: SubscriptionTask, inputs: Seq<StepInput>, k: int)
    requires
        0 <= k < inputs.len(),
        inputs[k].store is None || (inputs[k].current_workspace matches Some(c) && c
            != t.workspace_id),
    ensures
        forall|j: int| k <= j < inputs.len() ==> run_notes(t, inputs)[j].len() == 0,
    decreases k,
{
    lemma_run_notes_len(t, inputs);
    let next = next_task(t, inputs.first());
    let rest = inputs.drop_first();
    if k == 0 {
        assert(step_notes(t, inputs.first()).len() == 0);
        assert(next.terminated);
        lemma_terminated_silent(next, rest);
        lemma_run_notes_len(next, rest);
        assert forall|j: int| k <= j < inputs.len() implies run_notes(t, inputs)[j].len() == 0 by {
            if j >= 1 {
                assert(run_notes(t, inputs)[j] == run_notes(next, rest)[j - 1]);
            }
        }
    } else {
        assert(rest[k - 1] == inputs[k]);
        lemma_fatal_input_silences(next, rest, k - 1);
        lemma_run_notes_len(next, rest);
        assert forall|j: int| k <= j < inputs.len() implies run_notes(t, inputs)[j].len() == 0 by {
            assert(run_notes(t, inputs)[j] == run_notes(next, rest)[j - 1]);
        }
    }
}

/// Workspace scoping: once the session's current workspace resolves to a
/// value different from the subscription's, the step that sees it and every
/// later step of the run emit nothing.
pub proof fn lemma_workspace_scoping(t: SubscriptionTask, inputs: Seq<StepInput>, k: int)
    requires
        0 <= k < inputs.len(),
        inputs[k].current_workspace matches Some(c) && c != t.workspace_id,
    ensures
        forall|j: int| k <= j < inputs.len() ==> run_notes(t, inputs)[j].len() == 0,
{
    lemma_fatal_input_silences(t, inputs, k);
}

/// Weak-store teardown: once the store handle fails to resolve, the step
/// that sees it and every later step of the run emit nothing.
pub proof fn lemma_store_teardown(t: SubscriptionTask, inputs: Seq<StepInput>, k: int)
    requires
        0 <= k < inputs.len(),
        inputs[k].store is None,
    ensures
        forall|j: int| k <= j < inputs.len() ==> run_notes(t, inputs)[j].len() == 0,
{
    lemma_fatal_input_silences(t, inputs, k);
}

} // verus!
