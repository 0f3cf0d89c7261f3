use todo_repo::CreateTodo;
use todo_repo::RepositoryError;
use todo_repo::TodoRepository;
use todo_repo::TodoRepositoryForMemory;
use todo_repo::UpdateTodo;

#[test]
fn repository_round_trip() {
    let repo = TodoRepositoryForMemory::new();
    let created = repo.create(CreateTodo { text: "buy milk".to_string() });
    assert!(!created.completed);
    assert_eq!(created.text, "buy milk");
    let found = repo.find(created.id).expect("the created record must be stored");
    assert_eq!(found, created);
}

#[test]
fn repository_update_and_delete() {
    let repo = TodoRepositoryForMemory::new();
    let created = repo.create(CreateTodo { text: "a".to_string() });
    let updated = repo
        .update(created.id, UpdateTodo { text: Some("b".to_string()), completed: Some(true) })
        .expect("the id is stored");
    assert_eq!(updated.id, created.id);
    assert_eq!(updated.text, "b");
    assert!(updated.completed);
    assert_eq!(repo.delete(created.id), Ok(()));
    assert_eq!(repo.delete(created.id), Err(RepositoryError::NotFound(created.id)));
    assert_eq!(repo.find(created.id), None);
}

#[test]
fn repository_update_of_absent_id_fails() {
    let repo = TodoRepositoryForMemory::new();
    let r = repo.update(999, UpdateTodo { text: None, completed: Some(true) });
    assert_eq!(r, Err(RepositoryError::NotFound(999)));
}

#[test]
fn cloned_handles_share_one_store() {
    let repo = TodoRepositoryForMemory::new();
    let other = repo.clone();
    let created = other.create(CreateTodo { text: "shared".to_string() });
    let seen = repo.find(created.id).expect("a clone of the handle sees the same store");
    assert_eq!(seen, created);
    assert_eq!(repo.all().len(), 1);
    assert_eq!(other.all().len(), 1);
}

#[test]
fn repository_enumerates_distinct_ids() {
    let repo = TodoRepositoryForMemory::new();
    repo.create(CreateTodo { text: "a".to_string() });
    repo.create(CreateTodo { text: "b".to_string() });
    repo.create(CreateTodo { text: "c".to_string() });
    let mut ids: Vec<i32> = repo.all().iter().map(|t| t.id).collect();
    ids.sort();
    assert_eq!(ids, vec![1, 2, 3]);
}
