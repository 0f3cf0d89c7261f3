//! The in-memory collection of records: a functional model of the store's
//! state, and the executable store proved against it.

use vstd::prelude::*;
use std::collections::HashMap;
use crate::records::CreateTodo;
use crate::records::RepositoryError;
use crate::records::Todo;
use crate::records::UpdateTodo;

verus! {

broadcast use vstd::std_specs::hash::group_hash_axioms;

/// The mathematical state of a store: the stored records, keyed by id,
/// and the counter from which the next id is taken.
pub ghost struct StoreModel {
    pub todos: Map<i32, Todo>,
    pub next_id: int,
}

/// Well-formedness of a store state: the counter is positive and fits
/// an `i32`, every stored record sits under its own id, and every
/// stored id is positive and below the counter — so the counter's
/// value is always free.
pub open spec fn model_inv(m: StoreModel) -> bool {
    &&& 1 <= m.next_id <= i32::MAX
    &&& m.todos.dom().finite()
    &&& forall|k: i32| #[trigger] m.todos.contains_key(k) ==> 1 <= k < m.next_id
        && m.todos[k].id == k
}

/// The record a creation builds: the counter as its id, the given
/// text, and the completion flag down.
pub open spec fn created_todo(m: StoreModel, text: String) -> Todo {
    Todo { id: m.next_id as i32, text: text, completed: false }
}

/// The state after a creation: the new record is stored under the
/// counter's value and the counter moves past it.
pub open spec fn create_step(m: StoreModel, text: String) -> StoreModel {
    StoreModel {
        todos: m.todos.insert(m.next_id as i32, created_todo(m, text)),
        next_id: m.next_id + 1,
    }
}

/// What a lookup returns: the record stored under the id, or nothing.
pub open spec fn find_result(m: StoreModel, id: i32) -> Option<Todo> {
    if m.todos.contains_key(id) {
        Some(m.todos[id])
    } else {
        None
    }
}

/// The partial-update rule: a present field of the intent fully
/// replaces the stored one, an absent field leaves it unchanged; the
/// id never changes.
pub open spec fn applied_update(t: Todo, u: UpdateTodo) -> Todo {
    Todo {
        id: t.id,
        text: match u.text {
            Some(s) => s,
            None => t.text,
        },
        completed: match u.completed {
            Some(c) => c,
            None => t.completed,
        },
    }
}

/// What an update returns: the merged record when the id is stored,
/// `NotFound` exactly when it is not.
pub open spec fn update_result(m: StoreModel, id: i32, u: UpdateTodo) -> Result<
    Todo,
    RepositoryError,
> {
    if m.todos.contains_key(id) {
        Ok(applied_update(m.todos[id], u))
    } else {
        Err(RepositoryError::NotFound(id))
    }
}

/// The state after an update: the merged record replaces the stored
/// one; a miss leaves the state untouched.
pub open spec fn update_step(m: StoreModel, id: i32, u: UpdateTodo) -> StoreModel {
    if m.todos.contains_key(id) {
        StoreModel { todos: m.todos.insert(id, applied_update(m.todos[id], u)), next_id: m.next_id }
    } else {
        m
    }
}

/// What a deletion returns: success when the id is stored, `NotFound`
/// exactly when it is not.
pub open spec fn delete_result(m: StoreModel, id: i32) -> Result<(), RepositoryError> {
    if m.todos.contains_key(id) {
        Ok(())
    } else {
        Err(RepositoryError::NotFound(id))
    }
}

/// The state after a deletion: the record under the id is gone; a miss
/// leaves the state untouched. The counter never moves back.
pub open spec fn delete_step(m: StoreModel, id: i32) -> StoreModel {
    if m.todos.contains_key(id) {
        StoreModel { todos: m.todos.remove(id), next_id: m.next_id }
    } else {
        m
    }
}

/// The unsynchronized store: a hash map from id to record, and the
/// monotonically increasing counter that assigns ids. The counter is
/// deliberately independent of the map's size, so an id is never
/// reassigned after a deletion.
pub struct TodoStore {
    map: HashMap<i32, Todo>,
    next_id: i32,
}

impl TodoStore {
    /// The mathematical state this store represents.
    pub closed spec fn model(&self) -> StoreModel {
        StoreModel { todos: self.map@, next_id: self.next_id as int }
    }

    pub open spec fn wf(&self) -> bool {
        model_inv(self.model())
    }

    /// An empty store whose first assigned id will be 1.
    pub fn new() -> (s: Self)
        ensures
            s.wf(),
            s.model() == (StoreModel { todos: Map::<i32, Todo>::empty(), next_id: 1 as int }),
    {
        TodoStore { map: HashMap::new(), next_id: 1 }
    }

    /// Whether the id space still has room for one more creation.
    pub fn has_room(&self) -> (b: bool)
        ensures
            b == (self.model().next_id < i32::MAX),
    {
        self.next_id < i32::MAX
    }

    /// The id the next creation will assign.
    pub fn peek_next_id(&self) -> (id: i32)
        ensures
            id == self.model().next_id,
    {
        self.next_id
    }

    /// Creation: assigns the counter as the fresh id — an id absent
    /// from the store — stores the record and returns it.
    pub fn create(&mut self, payload: CreateTodo) -> (t: Todo)
        requires
            old(self).wf(),
            old(self).model().next_id < i32::MAX,
        ensures
            final(self).wf(),
            t == created_todo(old(self).model(), payload.text),
            !old(self).model().todos.contains_key(t.id),
            final(self).model() == create_step(old(self).model(), payload.text),
    {
        let id = self.next_id;
        self.next_id = self.next_id + 1;
        let t = Todo::new(id, payload.text);
        let stored = t.clone();
        self.map.insert(id, stored);
        t
    }

    /// Lookup: absence is an empty result, not a failure.
    pub fn find(&self, id: i32) -> (r: Option<Todo>)
        ensures
            r == find_result(self.model(), id),
    {
        match self.map.get(&id) {
            Some(t) => Some(t.clone()),
            None => None,
        }
    }

    /// Enumeration: a snapshot of every stored record, each exactly as
    /// stored; the ids are pairwise distinct and every stored id
    /// appears. The order is the map's iteration order, which is
    /// unspecified.
    pub fn all(&self) -> (r: Vec<Todo>)
        requires
            self.wf(),
        ensures
            r@.len() == self.model().todos.dom().len(),
            forall|i: int|
                0 <= i < r@.len() ==> self.model().todos.contains_key(#[trigger] r@[i].id)
                    && r@[i] == self.model().todos[r@[i].id],
            forall|i: int, j: int| 0 <= i < j < r@.len() ==> r@[i].id != r@[j].id,
            forall|k: i32|
                #[trigger] self.model().todos.contains_key(k) ==> exists|i: int|
                    0 <= i < r@.len() && r@[i].id == k,
    {
        let mut out: Vec<Todo> = Vec::new();
        for k in it: self.map.keys()
            invariant
                self.wf(),
                out@.len() == it.index(),
                it.seq().unref().to_set() == self.map@.dom(),
                it.seq().no_duplicates(),
                it.seq().len() == self.map@.dom().len(),
                forall|k2: i32|
                    #[trigger] self.map@.contains_key(k2) ==> it.seq().unref().contains(k2),
                forall|j: int| 0 <= j < out@.len() ==> out@[j].id == it.seq().unref()[j],
                forall|j: int|
                    0 <= j < out@.len() ==> self.map@.contains_key(#[trigger] out@[j].id)
                        && out@[j] == self.map@[out@[j].id],
                forall|i: int, j: int| 0 <= i < j < out@.len() ==> out@[i].id != out@[j].id,
        {
            proof {
                let idx = it.index();
                assert(it.seq().unref()[idx] == *k);
                assert(it.seq().unref().contains(*k));
                assert(self.map@.dom().contains(*k));
                assert(self.model().todos.contains_key(*k));
                assert(self.map@[*k].id == *k);
                assert forall|j: int| 0 <= j < out@.len() implies out@[j].id != *k by {
                    assert(out@[j].id == it.seq().unref()[j]);
                    assert(it.seq()[j] != it.seq()[idx]);
                    assert(it.seq().unref()[j] == *it.seq()[j]);
                    assert(it.seq().unref()[idx] == *it.seq()[idx]);
                }
            }
            match self.map.get(k) {
                Some(t) => {
                    let c = t.clone();
                    proof {
                        assert(c == self.map@[*k]);
                        assert(c.id == *k);
                    }
                    out.push(c);
                },
                None => {
                    proof {
                        assert(false);
                    }
                },
            }
        }
        out
    }

    /// Update: merges the intent into the stored record by the
    /// partial-update rule and returns the merged record; fails with
    /// `NotFound` exactly when the id is absent.
    pub fn update(&mut self, id: i32, payload: UpdateTodo) -> (r: Result<Todo, RepositoryError>)
        requires
            old(self).wf(),
        ensures
            final(self).wf(),
            r == update_result(old(self).model(), id, payload),
            final(self).model() == update_step(old(self).model(), id, payload),
    {
        let current = match self.map.get(&id) {
            Some(t) => t.clone(),
            None => {
                return Err(RepositoryError::NotFound(id));
            },
        };
        let new_text = match payload.text {
            Some(s) => s,
            None => current.text.clone(),
        };
        let new_completed = match payload.completed {
            Some(c) => c,
            None => current.completed,
        };
        let t = Todo { id: current.id, text: new_text, completed: new_completed };
        let stored = t.clone();
        self.map.insert(id, stored);
        Ok(t)
    }

    /// Deletion: removes the record; fails with `NotFound` exactly
    /// when the id is absent. The counter is not wound back, so a
    /// removed id is never handed out again.
    pub fn delete(&mut self, id: i32) -> (r: Result<(), RepositoryError>)
        requires
            old(self).wf(),
        ensures
            final(self).wf(),
            r == delete_result(old(self).model(), id),
            final(self).model() == delete_step(old(self).model(), id),
    {
        match self.map.remove(&id) {
            Some(_) => Ok(()),
            None => {
                proof {
                    assert(old(self).model().todos.remove(id) =~= old(self).model().todos);
                }
                Err(RepositoryError::NotFound(id))
            },
        }
    }
}

} // verus!
