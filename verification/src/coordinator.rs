//! The coordinator: the task registry of live recipes, the step-dispatch
//! algorithm, and the handling of every message kind its mailbox can carry.
//!
//! The registry maps each live task to its remaining ordered steps.  A recipe
//! is mutated only by removing its first step when that step executes; an
//! entry whose recipe has run empty and an absent entry are indistinguishable
//! in effect.  All mutation happens through the methods here, so the whole
//! message loop is a function from registry and message to new registry,
//! outbound messages, and an exit flag, stated by `step_spec`.

use vstd::prelude::*;
use std::collections::HashMap;
use crate::protocol::{
    LspRequest, LspResponse, MsgFromManager, MsgToManager, QueryRequest, QueryResponse, TaskId,
};

verus! {

/// One unit of delegated work within a recipe, tagged with the worker it
/// targets.
#[derive(Debug, PartialEq)]
pub enum RecipeStep {
    GetTextForFile,
    RespondWithType,
    RespondWithInitialized,
}

/// The payload supplied when a step executes.  Its shape must match what the
/// step expects; a mismatch is a defect in recipe construction, never a data
/// condition, so the dispatch functions rule it out in their preconditions.
#[derive(Debug, PartialEq)]
pub enum Argument {
    Location(url::Url, languageserver_types::Position),
    Text(String),
    Unit,
}

/// A message the coordinator directs at one of its two workers.
#[derive(Debug, PartialEq)]
pub enum Outbound {
    ToQuerySystem(MsgFromManager<QueryRequest>),
    ToLspResponder(MsgFromManager<LspResponse>),
}

/// Whether `arg` has the shape the given step consumes.
pub open spec fn step_expects(step: RecipeStep, arg: Argument) -> bool {
    match (step, arg) {
        (RecipeStep::GetTextForFile, Argument::Location(_, _)) => true,
        (RecipeStep::RespondWithType, Argument::Text(_)) => true,
        (RecipeStep::RespondWithInitialized, Argument::Unit) => true,
        _ => false,
    }
}

/// The one message that executing `step` for `task_id` against `arg` sends,
/// assuming the shapes match.
pub open spec fn step_message(task_id: TaskId, step: RecipeStep, arg: Argument) -> Outbound {
    match (step, arg) {
        (RecipeStep::GetTextForFile, Argument::Location(url, position)) => Outbound::ToQuerySystem(
            MsgFromManager::Message(QueryRequest::TypeAtPosition(task_id, url, position)),
        ),
        (RecipeStep::RespondWithType, Argument::Text(ty)) => Outbound::ToLspResponder(
            MsgFromManager::Message(LspResponse::Type(task_id, ty)),
        ),
        (RecipeStep::RespondWithInitialized, _) => Outbound::ToLspResponder(
            MsgFromManager::Message(LspResponse::Initialized(task_id)),
        ),
        _ => arbitrary(),
    }
}

/// True when advancing `task_id` against `arg` cannot hit a shape mismatch:
/// either the task has no pending step, or the first pending step consumes an
/// argument of this shape.
pub open spec fn shape_ok(m: Map<TaskId, Seq<RecipeStep>>, task_id: TaskId, arg: Argument) -> bool {
    m.contains_key(task_id) && m[task_id].len() > 0 ==> step_expects(m[task_id][0], arg)
}

/// The step-dispatch algorithm on the registry model: an unknown or spent
/// task is left exactly as it is and nothing is sent; otherwise the first
/// remaining step is removed and its one message goes out.
pub open spec fn advance_spec(
    m: Map<TaskId, Seq<RecipeStep>>,
    task_id: TaskId,
    arg: Argument,
) -> (Map<TaskId, Seq<RecipeStep>>, Option<Outbound>) {
    if m.contains_key(task_id) && m[task_id].len() > 0 && step_expects(m[task_id][0], arg) {
        (m.insert(task_id, m[task_id].drop_first()), Some(step_message(task_id, m[task_id][0], arg)))
    } else {
        (m, None)
    }
}

/// Recipe construction for one client request: a type query registers a
/// two-step recipe and dispatches its fetch step at once; opening a file is a
/// one-way notification that bypasses the registry; an initialize request
/// registers a one-step recipe and dispatches it at once with a unit payload.
pub open spec fn recipe_spec(
    m: Map<TaskId, Seq<RecipeStep>>,
    request: LspRequest,
) -> (Map<TaskId, Seq<RecipeStep>>, Option<Outbound>) {
    match request {
        LspRequest::TypeForPos(task_id, url, position) => advance_spec(
            m.insert(task_id, seq![RecipeStep::GetTextForFile, RecipeStep::RespondWithType]),
            task_id,
            Argument::Location(url, position),
        ),
        LspRequest::OpenFile(url, contents) => (
            m,
            Some(Outbound::ToQuerySystem(MsgFromManager::Message(QueryRequest::OpenFile(url, contents)))),
        ),
        LspRequest::Initialize(task_id) => advance_spec(
            m.insert(task_id, seq![RecipeStep::RespondWithInitialized]),
            task_id,
            Argument::Unit,
        ),
    }
}

/// The whole message loop body as a function of registry and message: the new
/// registry, the outbound messages in send order, and whether the loop exits.
pub open spec fn step_spec(
    m: Map<TaskId, Seq<RecipeStep>>,
    msg: MsgToManager,
) -> (Map<TaskId, Seq<RecipeStep>>, Seq<Outbound>, bool) {
    match msg {
        MsgToManager::QueryResponse(QueryResponse::Type(task_id, contents)) => {
            let (m2, out) = advance_spec(m, task_id, Argument::Text(contents));
            (m2, opt_to_seq(out), false)
        },
        MsgToManager::LspRequest(request) => {
            let (m2, out) = recipe_spec(m, request);
            (m2, opt_to_seq(out), false)
        },
        MsgToManager::Cancel(task_id) => (m.remove(task_id), Seq::empty(), false),
        MsgToManager::Shutdown => (
            m,
            seq![
                Outbound::ToLspResponder(MsgFromManager::Shutdown),
                Outbound::ToQuerySystem(MsgFromManager::Shutdown),
            ],
            true,
        ),
    }
}

/// The outbound messages of one dispatch, as a sequence in send order.
pub open spec fn opt_to_seq(out: Option<Outbound>) -> Seq<Outbound> {
    match out {
        Some(o) => seq![o],
        None => Seq::empty(),
    }
}

/// The registry invariant the message loop maintains: once a request has been
/// handled, every live recipe is either spent or waiting for exactly the type
/// reply that its emit step consumes.
pub open spec fn registry_wf(m: Map<TaskId, Seq<RecipeStep>>) -> bool {
    forall|t: TaskId| #[trigger] m.contains_key(t) ==> m[t] == Seq::<RecipeStep>::empty() || m[t]
        == seq![RecipeStep::RespondWithType]
}

/// The coordinator's task registry: the only mutable state of the core,
/// touched exclusively through the methods below.
pub struct TaskManager {
    live_recipes: HashMap<TaskId, Vec<RecipeStep>>,
}

impl TaskManager {
    /// The registry as a map from live task to its remaining ordered steps.
    pub closed spec fn recipes(self) -> Map<TaskId, Seq<RecipeStep>> {
        self.live_recipes@.map_values(|steps: Vec<RecipeStep>| steps@)
    }

    /// A coordinator with no live task.
    pub fn new() -> (manager: TaskManager)
        ensures
            manager.recipes() == Map::<TaskId, Seq<RecipeStep>>::empty(),
    {
        let manager = TaskManager { live_recipes: HashMap::new() };
        proof {
            assert(manager.recipes() =~= Map::<TaskId, Seq<RecipeStep>>::empty());
        }
        manager
    }

    /// Executes the next pending step of `task_id` against `argument`, as
    /// `advance_spec` says: for a task that was never registered, already
    /// completed, or cancelled, this is a silent no-op.
    pub fn send_next_step(&mut self, task_id: TaskId, argument: Argument) -> (out: Option<Outbound>)
        requires
            shape_ok(old(self).recipes(), task_id, argument),
        ensures
            (final(self).recipes(), out) == advance_spec(old(self).recipes(), task_id, argument),
    {
        let ghost m0 = self.recipes();
        match self.live_recipes.remove(&task_id) {
            Option::Some(mut steps) => {
                if steps.len() > 0 {
                    let step = steps.remove(0);
                    proof {
                        assert(steps@ == m0[task_id].drop_first());
                    }
                    self.live_recipes.insert(task_id, steps);
                    proof {
                        assert(self.recipes() =~= m0.insert(task_id, m0[task_id].drop_first()));
                    }
                    let out = match step {
                        RecipeStep::GetTextForFile => {
                            match argument {
                                Argument::Location(url, position) => Outbound::ToQuerySystem(
                                    MsgFromManager::Message(
                                        QueryRequest::TypeAtPosition(task_id, url, position),
                                    ),
                                ),
                                _ => unreached(),
                            }
                        },
                        RecipeStep::RespondWithType => {
                            match argument {
                                Argument::Text(ty) => Outbound::ToLspResponder(
                                    MsgFromManager::Message(LspResponse::Type(task_id, ty)),
                                ),
                                _ => unreached(),
                            }
                        },
                        RecipeStep::RespondWithInitialized => Outbound::ToLspResponder(
                            MsgFromManager::Message(LspResponse::Initialized(task_id)),
                        ),
                    };
                    Some(out)
                } else {
                    self.live_recipes.insert(task_id, steps);
                    proof {
                        assert(self.recipes() =~= m0);
                    }
                    None
                }
            },
            Option::None => {
                proof {
                    assert(self.recipes() =~= m0);
                }
                None
            },
        }
    }

    /// Translates one client request into its recipe and initial dispatch, as
    /// `recipe_spec` says: zero or one registry entry, plus one message out.
    pub fn do_recipe_for_lsp_request(&mut self, lsp_request: LspRequest) -> (out: Option<Outbound>)
        ensures
            (final(self).recipes(), out) == recipe_spec(old(self).recipes(), lsp_request),
    {
        let ghost m0 = self.recipes();
        match lsp_request {
            LspRequest::TypeForPos(task_id, url, position) => {
                let recipe = vec![RecipeStep::GetTextForFile, RecipeStep::RespondWithType];
                proof {
                    assert(recipe@ == seq![RecipeStep::GetTextForFile, RecipeStep::RespondWithType]);
                }
                self.live_recipes.insert(task_id, recipe);
                proof {
                    assert(self.recipes() =~= m0.insert(
                        task_id,
                        seq![RecipeStep::GetTextForFile, RecipeStep::RespondWithType],
                    ));
                }
                self.send_next_step(task_id, Argument::Location(url, position))
            },
            LspRequest::OpenFile(url, contents) => Some(
                Outbound::ToQuerySystem(MsgFromManager::Message(QueryRequest::OpenFile(url, contents))),
            ),
            LspRequest::Initialize(task_id) => {
                let recipe = vec![RecipeStep::RespondWithInitialized];
                proof {
                    assert(recipe@ == seq![RecipeStep::RespondWithInitialized]);
                }
                self.live_recipes.insert(task_id, recipe);
                proof {
                    assert(self.recipes() =~= m0.insert(task_id, seq![RecipeStep::RespondWithInitialized]));
                }
                self.send_next_step(task_id, Argument::Unit)
            },
        }
    }

    /// One turn of the coordinator's message loop, as `step_spec` says: a
    /// subsystem reply advances its task, a client request builds its recipe,
    /// a cancellation unconditionally removes the task, and shutdown directs
    /// a stop sentinel at each worker and ends the loop.
    pub fn handle_message(&mut self, msg: MsgToManager) -> (r: (Vec<Outbound>, bool))
        requires
            registry_wf(old(self).recipes()),
        ensures
            final(self).recipes() == step_spec(old(self).recipes(), msg).0,
            r.0@ == step_spec(old(self).recipes(), msg).1,
            r.1 == step_spec(old(self).recipes(), msg).2,
            registry_wf(final(self).recipes()),
    {
        let ghost m0 = self.recipes();
        let mut outbound: Vec<Outbound> = Vec::new();
        let mut exit = false;
        match msg {
            MsgToManager::QueryResponse(QueryResponse::Type(task_id, contents)) => {
                if let Some(out) = self.send_next_step(task_id, Argument::Text(contents)) {
                    outbound.push(out);
                }
            },
            MsgToManager::LspRequest(lsp_request) => {
                if let Some(out) = self.do_recipe_for_lsp_request(lsp_request) {
                    outbound.push(out);
                }
            },
            MsgToManager::Cancel(task_id) => {
                self.live_recipes.remove(&task_id);
                proof {
                    assert(self.recipes() =~= m0.remove(task_id));
                }
            },
            MsgToManager::Shutdown => {
                outbound.push(Outbound::ToLspResponder(MsgFromManager::Shutdown));
                outbound.push(Outbound::ToQuerySystem(MsgFromManager::Shutdown));
                exit = true;
            },
        }
        proof {
            assert(outbound@ == step_spec(m0, msg).1);
            lemma_step_preserves_wf(m0, msg);
        }
        (outbound, exit)
    }
}

/// Handling any one message keeps the registry invariant: each live recipe
/// stays either spent or waiting for exactly its type reply.
pub proof fn lemma_step_preserves_wf(m: Map<TaskId, Seq<RecipeStep>>, msg: MsgToManager)
    requires
        registry_wf(m),
    ensures
        registry_wf(step_spec(m, msg).0),
{
    let m2 = step_spec(m, msg).0;
    assert forall|t: TaskId| #[trigger] m2.contains_key(t) implies m2[t]
        == Seq::<RecipeStep>::empty() || m2[t] == seq![RecipeStep::RespondWithType] by {
        if m.contains_key(t) {
            assert(m[t] == Seq::<RecipeStep>::empty() || m[t] == seq![RecipeStep::RespondWithType]);
        }
        match msg {
            MsgToManager::LspRequest(LspRequest::TypeForPos(task_id, url, position)) => {
                if t == task_id {
                    let inserted = m.insert(
                        task_id,
                        seq![RecipeStep::GetTextForFile, RecipeStep::RespondWithType],
                    );
                    assert(inserted[task_id].drop_first() =~= seq![RecipeStep::RespondWithType]);
                }
            },
            MsgToManager::LspRequest(LspRequest::Initialize(task_id)) => {
                if t == task_id {
                    let inserted = m.insert(task_id, seq![RecipeStep::RespondWithInitialized]);
                    assert(inserted[task_id].drop_first() =~= Seq::<RecipeStep>::empty());
                }
            },
            _ => {},
        }
    }
}

} // verus!
