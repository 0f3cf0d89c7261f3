//! The record model: the todo entity, the two mutation intents, and the
//! repository's one failure value.

use vstd::prelude::*;

verus! {

/// One task record: a positive identifier assigned by the store at
/// creation time, the caller-supplied text, and a completion flag.
#[derive(Debug, PartialEq, Eq)]
pub struct Todo {
    pub id: i32,
    pub text: String,
    pub completed: bool,
}

impl Todo {
    /// A fresh record carries the given id and text and starts out
    /// not completed.
    pub fn new(id: i32, text: String) -> (t: Self)
        ensures
            t.id == id,
            t.text == text,
            t.completed == false,
    {
        Todo { id, text, completed: false }
    }
}

impl Clone for Todo {
    fn clone(&self) -> (t: Self)
        ensures
            t == *self,
    {
        Todo { id: self.id, text: self.text.clone(), completed: self.completed }
    }
}

/// Creation intent: the text of the record to be stored. No validation
/// is applied; empty text is accepted.
#[derive(Debug, PartialEq, Eq)]
pub struct CreateTodo {
    pub text: String,
}

/// Partial-update intent: a present field fully replaces the stored
/// one, an absent field leaves it unchanged.
#[derive(Debug, PartialEq, Eq)]
pub struct UpdateTodo {
    pub text: Option<String>,
    pub completed: Option<bool>,
}

/// The one failure the repository signals: the id that an update or a
/// deletion targeted is absent from the store.
#[derive(Debug, Clone, Copy, PartialEq, Eq, Structural)]
pub enum RepositoryError {
    NotFound(i32),
}

} // verus!
