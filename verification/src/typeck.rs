//! The type checker's deferred-operation queue: operations parked until some
//! inference variable is unified.  An operation lives in a generational arena
//! and its index is listed under every variable it waits on, so triggering
//! one variable runs each such operation exactly once, even when it was
//! parked under several variables at a time.

use vstd::prelude::*;
use std::collections::HashMap;
use generational_arena::Arena;

verus! {

/// An inference variable, named by its index in the unifier's table.
pub type InferVar = u64;

/// A token standing for one deferred operation.  The caller picks the token;
/// `trigger_ops` hands back the tokens of the operations to run.
pub type OpToken = u64;

/// The raw parts, slot and generation, of the arena index an operation was
/// parked under.
pub type OpIndex = (usize, u64);

/// Relies on `generational_arena::Arena`, a collection whose indices carry a
/// generation so that a removed entry's index never matches again.
#[verifier::external_type_specification]
#[verifier::external_body]
#[verifier::reject_recursive_types(T)]
pub struct ExArena<T>(Arena<T>);

/// The entries an arena currently holds, keyed by the raw parts of the index
/// each was inserted under.
pub uninterp spec fn arena_entries(arena: Arena<OpToken>) -> Map<OpIndex, OpToken>;

/// An arena content map with nothing in it.
pub open spec fn no_entries() -> Map<OpIndex, OpToken> {
    Map::empty()
}

/// Relies on `generational_arena::Arena::new`: a freshly built arena holds no
/// entries.
#[verifier::external_body]
fn arena_new() -> (fresh: Arena<OpToken>)
    ensures
        arena_entries(fresh) == no_entries(),
{
    Arena::new()
}

/// Relies on `generational_arena::Arena::insert`, which places the value at a
/// free slot under the arena's current generation and returns that index, and
/// on `Index::into_raw_parts`.  A free slot holds no live entry, so the
/// returned key is fresh.
#[verifier::external_body]
fn arena_insert(arena: &mut Arena<OpToken>, op: OpToken) -> (i: OpIndex)
    ensures
        !arena_entries(*old(arena)).dom().contains(i),
        arena_entries(*final(arena)) == arena_entries(*old(arena)).insert(i, op),
{
    arena.insert(op).into_raw_parts()
}

/// Relies on `generational_arena::Arena::remove`, which returns the entry at
/// the index exactly when both slot and generation still match and leaves the
/// arena unchanged otherwise, and on `Index::from_raw_parts`.
#[verifier::external_body]
fn arena_remove(arena: &mut Arena<OpToken>, i: OpIndex) -> (removed: Option<OpToken>)
    ensures
        arena_entries(*old(arena)).dom().contains(i) ==> removed == Some(
            arena_entries(*old(arena))[i],
        ) && arena_entries(*final(arena)) == arena_entries(*old(arena)).remove(i),
        !arena_entries(*old(arena)).dom().contains(i) ==> removed == Option::<OpToken>::None
            && arena_entries(*final(arena)) == arena_entries(*old(arena)),
{
    arena.remove(generational_arena::Index::from_raw_parts(i.0, i.1))
}

/// What the unifier reports of one value handed to `enqueue_op`: already
/// resolved to concrete data, or still an unbound inference variable.
#[derive(Clone, Copy)]
pub enum Inferable {
    Resolved,
    Unresolved(InferVar),
}

/// The blocked-operation table after parking `i` under `var`: appended to the
/// variable's existing list, or opening a new list.
pub open spec fn blocked_push(
    blocked: Map<InferVar, Seq<OpIndex>>,
    var: InferVar,
    i: OpIndex,
) -> Map<InferVar, Seq<OpIndex>> {
    blocked.insert(
        var,
        (if blocked.contains_key(var) {
            blocked[var]
        } else {
            Seq::empty()
        }).push(i),
    )
}

/// The blocked-operation table after walking `values` in order and parking
/// `i` under each variable still unresolved; a variable listed twice gets the
/// index twice, exactly as the walk does it.
pub open spec fn blocked_after(
    blocked: Map<InferVar, Seq<OpIndex>>,
    values: Seq<Inferable>,
    i: OpIndex,
) -> Map<InferVar, Seq<OpIndex>>
    decreases values.len(),
{
    if values.len() == 0 {
        blocked
    } else {
        let first = match values[0] {
            Inferable::Unresolved(var) => blocked_push(blocked, var, i),
            Inferable::Resolved => blocked,
        };
        blocked_after(first, values.drop_first(), i)
    }
}

/// Walking `indices` in order against the arena `ops`: an index whose entry
/// is still present runs it, removing it; an index already removed, as when
/// one operation was parked under several variables, is passed over.  Returns
/// the tokens run, appended to `acc`, and the remaining arena.
pub open spec fn drain(
    acc: Seq<OpToken>,
    ops: Map<OpIndex, OpToken>,
    indices: Seq<OpIndex>,
) -> (Seq<OpToken>, Map<OpIndex, OpToken>)
    decreases indices.len(),
{
    if indices.len() == 0 {
        (acc, ops)
    } else if ops.dom().contains(indices[0]) {
        drain(acc.push(ops[indices[0]]), ops.remove(indices[0]), indices.drop_first())
    } else {
        drain(acc, ops, indices.drop_first())
    }
}

/// The deferred-operation state of the type checker: the arena of parked
/// operations and, per inference variable, the indices waiting on it.
pub struct TypeChecker {
    ops_arena: Arena<OpToken>,
    ops_blocked: HashMap<InferVar, Vec<OpIndex>>,
}

impl TypeChecker {
    /// The parked operations, by the arena index each sits under.
    pub closed spec fn ops(self) -> Map<OpIndex, OpToken> {
        arena_entries(self.ops_arena)
    }

    /// Per inference variable, the parked indices waiting on it, oldest
    /// first.
    pub closed spec fn blocked(self) -> Map<InferVar, Seq<OpIndex>> {
        self.ops_blocked@.map_values(|indices: Vec<OpIndex>| indices@)
    }

    /// A checker with nothing parked.
    pub fn new() -> (typeck: TypeChecker)
        ensures
            typeck.ops() == Map::<OpIndex, OpToken>::empty(),
            typeck.blocked() == Map::<InferVar, Seq<OpIndex>>::empty(),
    {
        let typeck = TypeChecker { ops_arena: arena_new(), ops_blocked: HashMap::new() };
        proof {
            assert(typeck.blocked() =~= Map::<InferVar, Seq<OpIndex>>::empty());
        }
        typeck
    }

    /// Parks an operation to run when any of the variables in `values` is
    /// unified: the operation enters the arena under a fresh index, and that
    /// index is listed under every value still unresolved.  Enqueueing with
    /// no unresolved value is a defect, ruled out here, for the operation
    /// would never run.
    pub fn enqueue_op(&mut self, values: &Vec<Inferable>, op: OpToken)
        requires
            exists|j: int| 0 <= j < values@.len() && values@[j] is Unresolved,
        ensures
            exists|i: OpIndex|
                !old(self).ops().dom().contains(i) && final(self).ops() == #[trigger] old(
                    self,
                ).ops().insert(i, op) && final(self).blocked() == blocked_after(
                    old(self).blocked(),
                    values@,
                    i,
                ),
    {
        let ghost ops0 = self.ops();
        let ghost blocked0 = self.blocked();
        let op_index = arena_insert(&mut self.ops_arena, op);
        let mut inserted = false;
        let mut j: usize = 0;
        while j < values.len()
            invariant
                j <= values@.len(),
                self.ops() == ops0.insert(op_index, op),
                !ops0.dom().contains(op_index),
                self.blocked() == blocked_after(blocked0, values@.subrange(0, j as int), op_index),
                inserted == exists|k: int| 0 <= k < j && values@[k] is Unresolved,
            decreases values@.len() - j,
        {
            let ghost prefix = values@.subrange(0, j as int);
            let ghost blocked_now = self.blocked();
            match values[j] {
                Inferable::Unresolved(var) => {
                    let mut list: Vec<OpIndex> = match self.ops_blocked.remove(&var) {
                        Option::Some(list) => list,
                        Option::None => Vec::new(),
                    };
                    list.push(op_index);
                    self.ops_blocked.insert(var, list);
                    proof {
                        assert(self.blocked() =~= blocked_push(blocked_now, var, op_index));
                    }
                    inserted = true;
                },
                Inferable::Resolved => {},
            }
            proof {
                lemma_blocked_after_step(blocked0, prefix, values@[j as int], op_index);
                assert(prefix.push(values@[j as int]) =~= values@.subrange(0, j as int + 1));
            }
            j += 1;
        }
        proof {
            assert(values@.subrange(0, values@.len() as int) =~= values@);
            if !inserted {
                assert(false);
            }
        }
    }

    /// Runs every operation still parked for `var`: the variable's waiting
    /// list is taken out whole and walked in enqueue order, and the tokens of
    /// the operations still present are returned in that order, each removed
    /// from the arena so it can never run twice.  A variable nothing waits on
    /// yields nothing.
    pub fn trigger_ops(&mut self, var: InferVar) -> (executed: Vec<OpToken>)
        ensures
            final(self).blocked() == old(self).blocked().remove(var),
            (executed@, final(self).ops()) == drain(
                Seq::empty(),
                old(self).ops(),
                if old(self).blocked().contains_key(var) {
                    old(self).blocked()[var]
                } else {
                    Seq::empty()
                },
            ),
    {
        let ghost ops0 = self.ops();
        let ghost blocked0 = self.blocked();
        let blocked_indices: Vec<OpIndex> = match self.ops_blocked.remove(&var) {
            Option::Some(list) => list,
            Option::None => Vec::new(),
        };
        proof {
            assert(self.blocked() =~= blocked0.remove(var));
            assert(blocked_indices@ == if blocked0.contains_key(var) {
                blocked0[var]
            } else {
                Seq::<OpIndex>::empty()
            });
        }
        let ghost indices0 = blocked_indices@;
        let mut executed: Vec<OpToken> = Vec::new();
        proof {
            assert(indices0.skip(0) =~= indices0);
        }
        let mut k: usize = 0;
        while k < blocked_indices.len()
            invariant
                k <= indices0.len(),
                blocked_indices@ == indices0,
                self.blocked() == blocked0.remove(var),
                drain(executed@, self.ops(), indices0.skip(k as int)) == drain(
                    Seq::empty(),
                    ops0,
                    indices0,
                ),
            decreases indices0.len() - k,
        {
            proof {
                assert(indices0.skip(k as int).drop_first() =~= indices0.skip(k as int + 1));
                assert(indices0.skip(k as int)[0] == indices0[k as int]);
            }
            match arena_remove(&mut self.ops_arena, blocked_indices[k]) {
                Option::Some(op) => executed.push(op),
                Option::None => {},
            }
            k += 1;
        }
        proof {
            assert(indices0.skip(indices0.len() as int) =~= Seq::<OpIndex>::empty());
        }
        executed
    }
}

/// Walking one more value extends `blocked_after` by that value's effect.
proof fn lemma_blocked_after_step(
    blocked: Map<InferVar, Seq<OpIndex>>,
    prefix: Seq<Inferable>,
    value: Inferable,
    i: OpIndex,
)
    ensures
        blocked_after(blocked, prefix.push(value), i) == (match value {
            Inferable::Unresolved(var) => blocked_push(blocked_after(blocked, prefix, i), var, i),
            Inferable::Resolved => blocked_after(blocked, prefix, i),
        }),
    decreases prefix.len(),
{
    if prefix.len() == 0 {
        assert(prefix.push(value)[0] == value);
        assert(prefix.push(value).drop_first() =~= Seq::<Inferable>::empty());
        let first = match value {
            Inferable::Unresolved(var) => blocked_push(blocked, var, i),
            Inferable::Resolved => blocked,
        };
        assert(blocked_after(blocked, prefix.push(value), i) == blocked_after(
            first,
            prefix.push(value).drop_first(),
            i,
        ));
        assert(blocked_after(first, Seq::<Inferable>::empty(), i) == first);
        assert(blocked_after(blocked, prefix, i) == blocked);
    } else {
        let first = match prefix[0] {
            Inferable::Unresolved(var) => blocked_push(blocked, var, i),
            Inferable::Resolved => blocked,
        };
        assert(prefix.push(value)[0] == prefix[0]);
        assert(prefix.push(value).drop_first() =~= prefix.drop_first().push(value));
        assert(blocked_after(blocked, prefix.push(value), i) == blocked_after(
            first,
            prefix.drop_first().push(value),
            i,
        ));
        assert(blocked_after(blocked, prefix, i) == blocked_after(first, prefix.drop_first(), i));
        lemma_blocked_after_step(first, prefix.drop_first(), value, i);
    }
}

} // verus!
