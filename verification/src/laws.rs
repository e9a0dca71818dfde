//! Laws of the coordinator, stated and proved over the registry model that
//! the executable methods are specified against: what never-registered tasks,
//! interleaved traffic, cancellation and shutdown do and do not do.

use vstd::prelude::*;
use crate::coordinator::{
    advance_spec, step_spec, Argument, Outbound, RecipeStep,
};
use crate::protocol::{
    LspRequest, LspResponse, MsgFromManager, MsgToManager, QueryRequest, QueryResponse, TaskId,
};

verus! {

/// Whether handling `msg` may touch the registry entry of task `t`.
pub open spec fn concerns(msg: MsgToManager, t: TaskId) -> bool {
    match msg {
        MsgToManager::QueryResponse(QueryResponse::Type(task_id, _)) => task_id == t,
        MsgToManager::LspRequest(LspRequest::TypeForPos(task_id, _, _)) => task_id == t,
        MsgToManager::LspRequest(LspRequest::OpenFile(_, _)) => false,
        MsgToManager::LspRequest(LspRequest::Initialize(task_id)) => task_id == t,
        MsgToManager::Cancel(task_id) => task_id == t,
        MsgToManager::Shutdown => false,
    }
}

/// The registry after the message loop has consumed `msgs` in order,
/// stopping, as the loop does, at the first shutdown.
pub open spec fn run_spec(
    m: Map<TaskId, Seq<RecipeStep>>,
    msgs: Seq<MsgToManager>,
) -> Map<TaskId, Seq<RecipeStep>>
    decreases msgs.len(),
{
    if msgs.len() == 0 {
        m
    } else {
        let stepped = step_spec(m, msgs[0]);
        if stepped.2 {
            stepped.0
        } else {
            run_spec(stepped.0, msgs.drop_first())
        }
    }
}

/// A task identifier that is not in the registry is never advanced: the
/// registry is unchanged and no message goes out, silently.
pub proof fn lemma_advance_unknown_task_is_noop(
    m: Map<TaskId, Seq<RecipeStep>>,
    t: TaskId,
    arg: Argument,
)
    requires
        !m.contains_key(t),
    ensures
        advance_spec(m, t, arg) == (m, Option::<Outbound>::None),
{
}

/// Frame rule for one message: traffic concerning another task, or no task,
/// does not change the remaining steps of task `t`.
pub proof fn lemma_unrelated_message_preserves_entry(
    m: Map<TaskId, Seq<RecipeStep>>,
    msg: MsgToManager,
    t: TaskId,
)
    requires
        !concerns(msg, t),
    ensures
        step_spec(m, msg).0.contains_key(t) == m.contains_key(t),
        m.contains_key(t) ==> step_spec(m, msg).0[t] == m[t],
{
}

/// Frame rule for a whole run: messages concerning other tasks only do not
/// change the remaining steps of task `t`; a shutdown among them stops the
/// run early and changes no entry either.
pub proof fn lemma_unrelated_run_preserves_entry(
    m: Map<TaskId, Seq<RecipeStep>>,
    msgs: Seq<MsgToManager>,
    t: TaskId,
)
    requires
        forall|j: int| 0 <= j < msgs.len() ==> !concerns(#[trigger] msgs[j], t),
    ensures
        run_spec(m, msgs).contains_key(t) == m.contains_key(t),
        m.contains_key(t) ==> run_spec(m, msgs)[t] == m[t],
    decreases msgs.len(),
{
    if msgs.len() > 0 {
        lemma_unrelated_message_preserves_entry(m, msgs[0], t);
        let stepped = step_spec(m, msgs[0]);
        if !stepped.2 {
            lemma_unrelated_run_preserves_entry(stepped.0, msgs.drop_first(), t);
        }
    }
}

/// The steps of a multi-step recipe execute in the order they were
/// constructed, exactly once each, however many messages for other tasks
/// interleave: submitting a type query dispatches its fetch step at once,
/// carrying the query's own location, and parks the emit step; the emit step
/// executes when the type reply arrives, emitting exactly one response; after
/// that the task is spent and a further reply for it emits nothing.
pub proof fn lemma_recipe_steps_in_order_exactly_once(
    m: Map<TaskId, Seq<RecipeStep>>,
    t: TaskId,
    url: url::Url,
    position: languageserver_types::Position,
    between: Seq<MsgToManager>,
    contents: String,
    late: String,
)
    requires
        forall|j: int| 0 <= j < between.len() ==> !concerns(#[trigger] between[j], t),
    ensures
        ({
            let submitted = step_spec(m, MsgToManager::LspRequest(LspRequest::TypeForPos(t, url, position)));
            let waiting = run_spec(submitted.0, between);
            let replied = step_spec(waiting, MsgToManager::QueryResponse(QueryResponse::Type(t, contents)));
            let again = step_spec(replied.0, MsgToManager::QueryResponse(QueryResponse::Type(t, late)));
            &&& submitted.1 == seq![
                Outbound::ToQuerySystem(MsgFromManager::Message(QueryRequest::TypeAtPosition(t, url, position))),
            ]
            &&& submitted.0[t] == seq![RecipeStep::RespondWithType]
            &&& waiting[t] == seq![RecipeStep::RespondWithType]
            &&& replied.1 == seq![
                Outbound::ToLspResponder(MsgFromManager::Message(LspResponse::Type(t, contents))),
            ]
            &&& replied.0[t] == Seq::<RecipeStep>::empty()
            &&& again.1 == Seq::<Outbound>::empty()
            &&& again.0 == replied.0
        }),
{
    let two_steps = seq![RecipeStep::GetTextForFile, RecipeStep::RespondWithType];
    let inserted = m.insert(t, two_steps);
    assert(inserted[t].drop_first() =~= seq![RecipeStep::RespondWithType]);
    let submitted = step_spec(m, MsgToManager::LspRequest(LspRequest::TypeForPos(t, url, position)));
    lemma_unrelated_run_preserves_entry(submitted.0, between, t);
    let waiting = run_spec(submitted.0, between);
    let replied = step_spec(waiting, MsgToManager::QueryResponse(QueryResponse::Type(t, contents)));
    assert(waiting[t].drop_first() =~= Seq::<RecipeStep>::empty());
    assert(replied.0.contains_key(t) && replied.0[t].len() == 0);
}

/// Cancellation removes the task from future dispatch: a reply that arrives
/// for the task afterwards changes nothing and emits nothing.
pub proof fn lemma_cancel_then_reply_is_silent(
    m: Map<TaskId, Seq<RecipeStep>>,
    t: TaskId,
    contents: String,
)
    ensures
        ({
            let cancelled = step_spec(m, MsgToManager::Cancel(t)).0;
            let replied = step_spec(cancelled, MsgToManager::QueryResponse(QueryResponse::Type(t, contents)));
            &&& replied.0 == cancelled
            &&& replied.1 == Seq::<Outbound>::empty()
            &&& replied.2 == false
        }),
{
}

/// Cancelling a task twice in a row has the same observable effect as once:
/// the registry ends the same, and neither cancellation emits anything.
pub proof fn lemma_cancel_idempotent(m: Map<TaskId, Seq<RecipeStep>>, t: TaskId)
    ensures
        ({
            let once = step_spec(m, MsgToManager::Cancel(t));
            let twice = step_spec(once.0, MsgToManager::Cancel(t));
            &&& twice.0 == once.0
            &&& once.1 == Seq::<Outbound>::empty()
            &&& twice.1 == Seq::<Outbound>::empty()
        }),
{
    assert(m.remove(t).remove(t) =~= m.remove(t));
}

/// Shutdown directs one stop sentinel at each worker, responder first, ends
/// the loop, and forces no pending step: the registry is left as it stands,
/// so a task with steps remaining simply never executes them.
pub proof fn lemma_shutdown_stops_both_workers(m: Map<TaskId, Seq<RecipeStep>>)
    ensures
        step_spec(m, MsgToManager::Shutdown) == (
            m,
            seq![
                Outbound::ToLspResponder(MsgFromManager::<LspResponse>::Shutdown),
                Outbound::ToQuerySystem(MsgFromManager::<QueryRequest>::Shutdown),
            ],
            true,
        ),
{
}

} // verus!
