//! An in-process task store: create, read, update and delete over todo
//! records, behind a repository interface whose in-memory backend guards
//! the shared collection with a reader-writer lock.

pub mod laws;
pub mod records;
pub mod repositories;
pub mod store;

pub use records::CreateTodo;
pub use records::RepositoryError;
pub use records::Todo;
pub use records::UpdateTodo;
pub use repositories::TodoRepository;
pub use repositories::TodoRepositoryForMemory;
pub use store::TodoStore;
