use todo_repo::CreateTodo;
use todo_repo::RepositoryError;
use todo_repo::Todo;
use todo_repo::TodoStore;
use todo_repo::UpdateTodo;

#[test]
fn new_record_starts_uncompleted() {
    let t = Todo::new(7, "water the plants".to_string());
    assert_eq!(t.id, 7);
    assert_eq!(t.text, "water the plants");
    assert!(!t.completed);
}

#[test]
fn round_trip_create_then_find() {
    let mut s = TodoStore::new();
    let created = s.create(CreateTodo { text: "buy milk".to_string() });
    let found = s.find(created.id).expect("the created record must be stored");
    assert_eq!(found.id, created.id);
    assert_eq!(found.text, "buy milk");
    assert!(!found.completed);
}

#[test]
fn create_assigns_distinct_increasing_ids() {
    let mut s = TodoStore::new();
    let a = s.create(CreateTodo { text: "a".to_string() });
    let b = s.create(CreateTodo { text: "b".to_string() });
    let c = s.create(CreateTodo { text: "c".to_string() });
    assert_eq!((a.id, b.id, c.id), (1, 2, 3));
    assert!(a.id != b.id && b.id != c.id && a.id != c.id);
}

#[test]
fn ids_are_not_reused_after_delete() {
    let mut s = TodoStore::new();
    let a = s.create(CreateTodo { text: "a".to_string() });
    let b = s.create(CreateTodo { text: "b".to_string() });
    assert_eq!(s.delete(b.id), Ok(()));
    let c = s.create(CreateTodo { text: "c".to_string() });
    assert_ne!(c.id, a.id);
    assert_ne!(c.id, b.id);
    assert_eq!(c.id, 3);
}

#[test]
fn partial_update_replaces_text_only() {
    let mut s = TodoStore::new();
    let t = s.create(CreateTodo { text: "a".to_string() });
    assert_eq!((t.id, t.completed), (1, false));
    let updated = s
        .update(1, UpdateTodo { text: Some("b".to_string()), completed: None })
        .expect("the id is stored");
    assert_eq!(updated.id, 1);
    assert_eq!(updated.text, "b");
    assert!(!updated.completed);
}

#[test]
fn partial_update_replaces_completed_only() {
    let mut s = TodoStore::new();
    s.create(CreateTodo { text: "a".to_string() });
    let updated = s
        .update(1, UpdateTodo { text: None, completed: Some(true) })
        .expect("the id is stored");
    assert_eq!(updated.text, "a");
    assert!(updated.completed);
    let stored = s.find(1).expect("still stored");
    assert_eq!(stored, updated);
}

#[test]
fn partial_update_replaces_both_fields() {
    let mut s = TodoStore::new();
    s.create(CreateTodo { text: "a".to_string() });
    let updated = s
        .update(1, UpdateTodo { text: Some("b".to_string()), completed: Some(true) })
        .expect("the id is stored");
    assert_eq!(updated, Todo { id: 1, text: "b".to_string(), completed: true });
}

#[test]
fn update_of_absent_id_fails_with_not_found() {
    let mut s = TodoStore::new();
    let r = s.update(999, UpdateTodo { text: Some("x".to_string()), completed: None });
    assert_eq!(r, Err(RepositoryError::NotFound(999)));
}

#[test]
fn delete_removes_from_enumeration_and_lookup() {
    let mut s = TodoStore::new();
    let a = s.create(CreateTodo { text: "a".to_string() });
    let b = s.create(CreateTodo { text: "b".to_string() });
    assert_eq!(s.delete(a.id), Ok(()));
    assert_eq!(s.find(a.id), None);
    let remaining = s.all();
    assert!(remaining.iter().all(|t| t.id != a.id));
    assert_eq!(remaining.len(), 1);
    assert_eq!(remaining[0], b);
}

#[test]
fn delete_twice_fails_the_second_time() {
    let mut s = TodoStore::new();
    let t = s.create(CreateTodo { text: "once".to_string() });
    assert_eq!(s.delete(t.id), Ok(()));
    assert_eq!(s.delete(t.id), Err(RepositoryError::NotFound(t.id)));
}

#[test]
fn delete_of_absent_id_fails_with_not_found() {
    let mut s = TodoStore::new();
    assert_eq!(s.delete(41), Err(RepositoryError::NotFound(41)));
}

#[test]
fn empty_store_has_nothing() {
    let s = TodoStore::new();
    assert_eq!(s.find(1), None);
    assert!(s.all().is_empty());
}

#[test]
fn all_returns_every_stored_record() {
    let mut s = TodoStore::new();
    let a = s.create(CreateTodo { text: "a".to_string() });
    let b = s.create(CreateTodo { text: "b".to_string() });
    let c = s.create(CreateTodo { text: "c".to_string() });
    let mut everything = s.all();
    everything.sort_by_key(|t| t.id);
    assert_eq!(everything, vec![a, b, c]);
}

#[test]
fn empty_text_is_accepted() {
    let mut s = TodoStore::new();
    let t = s.create(CreateTodo { text: String::new() });
    assert_eq!(t.text, "");
    assert_eq!(s.find(t.id).expect("stored").text, "");
}
