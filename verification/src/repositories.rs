//! The repository interface and its in-memory backend: a shareable
//! handle over one store guarded by a reader-writer lock, so lookups
//! and enumerations run concurrently while mutations are exclusive.

use vstd::prelude::*;
use vstd::rwlock::RwLock;
use vstd::rwlock::RwLockPredicate;
use std::sync::Arc;
use crate::records::CreateTodo;
use crate::records::RepositoryError;
use crate::records::Todo;
use crate::records::UpdateTodo;
use crate::store::TodoStore;

verus! {

/// The capability interface over todo records. Any backend hands out
/// records in good standing: a creation stores the given text, not
/// completed, under a positive id; a lookup answers for the requested
/// id; an enumeration never shows one id twice; and a failed update or
/// deletion names the id that was missing.
pub trait TodoRepository: Clone + Send + Sync + 'static {
    /// Stores a new record with the given text under a fresh id and
    /// returns the stored value. Never fails.
    fn create(&self, payload: CreateTodo) -> (t: Todo)
        ensures
            t.completed == false,
            t.text == payload.text,
            1 <= t.id,
    ;

    /// Looks a record up by id; absence is an empty result, not a
    /// failure.
    fn find(&self, id: i32) -> (r: Option<Todo>)
        ensures
            match r {
                Some(t) => t.id == id,
                None => true,
            },
    ;

    /// A snapshot of every stored record, in unspecified order; the
    /// ids are pairwise distinct and positive.
    fn all(&self) -> (r: Vec<Todo>)
        ensures
            forall|i: int, j: int| 0 <= i < j < r@.len() ==> r@[i].id != r@[j].id,
            forall|i: int| 0 <= i < r@.len() ==> 1 <= #[trigger] r@[i].id,
    ;

    /// Applies a partial update to the record under the id and returns
    /// the merged record; fails with `NotFound` of the id when it is
    /// absent.
    fn update(&self, id: i32, payload: UpdateTodo) -> (r: Result<Todo, RepositoryError>)
        ensures
            match r {
                Ok(t) => {
                    &&& t.id == id
                    &&& (payload.text matches Some(s) ==> t.text == s)
                    &&& (payload.completed matches Some(c) ==> t.completed == c)
                },
                Err(e) => e == RepositoryError::NotFound(id),
            },
    ;

    /// Removes the record under the id; fails with `NotFound` of the
    /// id when it is absent.
    fn delete(&self, id: i32) -> (r: Result<(), RepositoryError>)
        ensures
            match r {
                Ok(_) => true,
                Err(e) => e == RepositoryError::NotFound(id),
            },
    ;
}

/// The lock invariant of the in-memory backend: only well-formed
/// stores go into — and therefore come out of — the lock, so no
/// reader ever observes a torn state.
pub ghost struct StorePred {}

impl RwLockPredicate<TodoStore> for StorePred {
    open spec fn inv(self, s: TodoStore) -> bool {
        s.wf()
    }
}

/// The in-memory backend. All clones of a handle share one store
/// behind a reader-writer lock: readers run concurrently with one
/// another, writers exclude everything else, and the lock is released
/// on every path.
#[derive(Clone)]
pub struct TodoRepositoryForMemory {
    store: Arc<RwLock<TodoStore, StorePred>>,
}

impl TodoRepositoryForMemory {
    /// A handle to a fresh, empty store whose first id will be 1.
    pub fn new() -> (r: Self) {
        TodoRepositoryForMemory {
            store: Arc::new(RwLock::new(TodoStore::new(), Ghost(StorePred {}))),
        }
    }
}

impl TodoRepository for TodoRepositoryForMemory {
    /// Takes the write lock and creates in the store. Should the id
    /// space ever be exhausted, the record cannot be stored; the
    /// returned record then carries the exhausted counter value.
    fn create(&self, payload: CreateTodo) -> (t: Todo) {
        let (mut store, write_handle) = self.store.acquire_write();
        let t = if store.has_room() {
            store.create(payload)
        } else {
            Todo::new(store.peek_next_id(), payload.text)
        };
        write_handle.release_write(store);
        t
    }

    /// Takes a read lock; concurrent lookups share it.
    fn find(&self, id: i32) -> (r: Option<Todo>) {
        let read_handle = self.store.acquire_read();
        let r = read_handle.borrow().find(id);
        read_handle.release_read();
        r
    }

    /// Takes a read lock; concurrent enumerations share it.
    fn all(&self) -> (r: Vec<Todo>) {
        let read_handle = self.store.acquire_read();
        let r = read_handle.borrow().all();
        read_handle.release_read();
        r
    }

    /// Takes the write lock and updates in the store.
    fn update(&self, id: i32, payload: UpdateTodo) -> (r: Result<Todo, RepositoryError>) {
        let (mut store, write_handle) = self.store.acquire_write();
        let r = store.update(id, payload);
        write_handle.release_write(store);
        r
    }

    /// Takes the write lock and deletes from the store.
    fn delete(&self, id: i32) -> (r: Result<(), RepositoryError>) {
        let (mut store, write_handle) = self.store.acquire_write();
        let r = store.delete(id);
        write_handle.release_write(store);
        r
    }
}

} // verus!
