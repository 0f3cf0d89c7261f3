//! Laws of the store, proved over its functional model: uniqueness of
//! assigned ids along any sequence of operations, the round trip from
//! creation to lookup, the partial-update rule, and the behaviour of
//! deletions.

use vstd::prelude::*;
use crate::records::RepositoryError;
use crate::records::Todo;
use crate::records::UpdateTodo;
use crate::store::StoreModel;
use crate::store::create_step;
use crate::store::created_todo;
use crate::store::delete_result;
use crate::store::delete_step;
use crate::store::find_result;
use crate::store::model_inv;
use crate::store::applied_update;
use crate::store::update_result;
use crate::store::update_step;

verus! {

/// One operation that mutates a store: a creation with the given text,
/// a partial update, or a deletion.
pub enum StoreOp {
    Create(String),
    Update(i32, UpdateTodo),
    Delete(i32),
}

/// The state after one operation. A creation only fires while the id
/// space has room; updates and deletions of absent ids leave the state
/// unchanged.
pub open spec fn apply_op(m: StoreModel, op: StoreOp) -> StoreModel {
    match op {
        StoreOp::Create(text) => if m.next_id < i32::MAX {
            create_step(m, text)
        } else {
            m
        },
        StoreOp::Update(id, u) => update_step(m, id, u),
        StoreOp::Delete(id) => delete_step(m, id),
    }
}

/// Whether the operation is a creation that fires on this state.
pub open spec fn op_creates(m: StoreModel, op: StoreOp) -> bool {
    op is Create && m.next_id < i32::MAX
}

/// The state after a whole sequence of operations, applied in order.
pub open spec fn run_ops(m: StoreModel, ops: Seq<StoreOp>) -> StoreModel
    decreases ops.len(),
{
    if ops.len() == 0 {
        m
    } else {
        run_ops(apply_op(m, ops[0]), ops.drop_first())
    }
}

/// The ids that the creations in the sequence assign, in order.
pub open spec fn created_ids(m: StoreModel, ops: Seq<StoreOp>) -> Seq<int>
    decreases ops.len(),
{
    if ops.len() == 0 {
        Seq::empty()
    } else if op_creates(m, ops[0]) {
        seq![m.next_id] + created_ids(apply_op(m, ops[0]), ops.drop_first())
    } else {
        created_ids(apply_op(m, ops[0]), ops.drop_first())
    }
}

/// Every operation preserves well-formedness of the store state.
pub proof fn lemma_apply_op_preserves_inv(m: StoreModel, op: StoreOp)
    requires
        model_inv(m),
    ensures
        model_inv(apply_op(m, op)),
{
}

/// A whole sequence of operations preserves well-formedness.
pub proof fn lemma_run_ops_preserve_inv(m: StoreModel, ops: Seq<StoreOp>)
    requires
        model_inv(m),
    ensures
        model_inv(run_ops(m, ops)),
    decreases ops.len(),
{
    if ops.len() > 0 {
        lemma_apply_op_preserves_inv(m, ops[0]);
        lemma_run_ops_preserve_inv(apply_op(m, ops[0]), ops.drop_first());
    }
}

/// The id counter never moves back: no operation decreases it.
pub proof fn lemma_next_id_monotone(m: StoreModel, ops: Seq<StoreOp>)
    ensures
        m.next_id <= run_ops(m, ops).next_id,
    decreases ops.len(),
{
    if ops.len() > 0 {
        lemma_next_id_monotone(apply_op(m, ops[0]), ops.drop_first());
    }
}

/// Every id a run assigns is at least the counter the run started from.
pub proof fn lemma_created_ids_at_least(m: StoreModel, ops: Seq<StoreOp>)
    ensures
        forall|i: int|
            0 <= i < created_ids(m, ops).len() ==> m.next_id <= #[trigger] created_ids(m, ops)[i],
    decreases ops.len(),
{
    if ops.len() > 0 {
        let m1 = apply_op(m, ops[0]);
        lemma_created_ids_at_least(m1, ops.drop_first());
        let rest = created_ids(m1, ops.drop_first());
        let s = created_ids(m, ops);
        assert(m.next_id <= m1.next_id);
        if op_creates(m, ops[0]) {
            assert(s == seq![m.next_id] + rest);
            assert forall|i: int| 0 <= i < s.len() implies m.next_id <= s[i] by {
                if i > 0 {
                    assert(s[i] == rest[i - 1] && m1.next_id <= rest[i - 1]);
                }
            }
        } else {
            assert(s == rest);
            assert forall|i: int| 0 <= i < s.len() implies m.next_id <= s[i] by {
                assert(m1.next_id <= rest[i]);
            }
        }
    }
}

/// A well-formed store never contains the id that the next creation
/// will assign: an assigned id is distinct from every id live at the
/// moment of creation.
pub proof fn lemma_next_id_absent(m: StoreModel)
    requires
        model_inv(m),
    ensures
        !m.todos.contains_key(m.next_id as i32),
{
}

/// Uniqueness of identifiers: along any sequence of creations, updates
/// and deletions, in any order, the ids that the creations assign are
/// pairwise distinct — an id is never handed out twice, not even after
/// the record that carried it was deleted.
pub proof fn lemma_created_ids_distinct(m: StoreModel, ops: Seq<StoreOp>)
    ensures
        created_ids(m, ops).no_duplicates(),
    decreases ops.len(),
{
    if ops.len() > 0 {
        let m1 = apply_op(m, ops[0]);
        let rest = created_ids(m1, ops.drop_first());
        lemma_created_ids_distinct(m1, ops.drop_first());
        lemma_created_ids_at_least(m1, ops.drop_first());
        if op_creates(m, ops[0]) {
            let s = seq![m.next_id] + rest;
            assert(m.next_id < m1.next_id);
            assert forall|i: int, j: int|
                0 <= i < s.len() && 0 <= j < s.len() && i != j implies s[i] != s[j] by {
                if i == 0 {
                    assert(s[j] == rest[j - 1] && m1.next_id <= rest[j - 1]);
                } else if j == 0 {
                    assert(s[i] == rest[i - 1] && m1.next_id <= rest[i - 1]);
                } else {
                    assert(s[i] == rest[i - 1] && s[j] == rest[j - 1]);
                }
            }
            assert(s.no_duplicates());
        }
    }
}

/// Round trip: a creation followed by a lookup of the assigned id
/// returns exactly the stored record — the given text, not completed.
pub proof fn lemma_create_then_find(m: StoreModel, text: String)
    requires
        model_inv(m),
        m.next_id < i32::MAX,
    ensures
        find_result(create_step(m, text), created_todo(m, text).id) == Some(
            created_todo(m, text),
        ),
        created_todo(m, text).text == text,
        created_todo(m, text).completed == false,
{
}

/// The partial-update rule: a present field of the intent replaces the
/// stored one, an absent field is preserved exactly, and the id never
/// changes.
pub proof fn lemma_partial_update(t: Todo, u: UpdateTodo)
    ensures
        applied_update(t, u).id == t.id,
        u.text is None ==> applied_update(t, u).text == t.text,
        u.completed is None ==> applied_update(t, u).completed == t.completed,
        u.text matches Some(s) ==> applied_update(t, u).text == s,
        u.completed matches Some(c) ==> applied_update(t, u).completed == c,
{
}

/// An update of an id that is not stored — in particular any update on
/// an empty store — fails with `NotFound` of that id and changes
/// nothing.
pub proof fn lemma_update_absent(m: StoreModel, id: i32, u: UpdateTodo)
    requires
        !m.todos.contains_key(id),
    ensures
        update_result(m, id, u) == Err::<Todo, RepositoryError>(RepositoryError::NotFound(id)),
        update_step(m, id, u) == m,
{
}

/// After a deletion the id is gone: a lookup of it returns nothing,
/// and it is absent from the state every enumeration draws from.
pub proof fn lemma_delete_removes(m: StoreModel, id: i32)
    ensures
        !delete_step(m, id).todos.contains_key(id),
        find_result(delete_step(m, id), id) == None::<Todo>,
{
}

/// Deletion is not idempotent: deleting a stored id succeeds, and
/// deleting the same id again fails with `NotFound`.
pub proof fn lemma_delete_twice(m: StoreModel, id: i32)
    requires
        m.todos.contains_key(id),
    ensures
        delete_result(m, id) == Ok::<(), RepositoryError>(()),
        delete_result(delete_step(m, id), id) == Err::<(), RepositoryError>(
            RepositoryError::NotFound(id),
        ),
{
}

} // verus!
