use todo_list::database::Database;

fn descriptions(db: &Database) -> Vec<String> {
    db.get_todos()
        .unwrap()
        .into_iter()
        .map(|t| t.description)
        .collect()
}

#[test]
fn new_store_is_empty() {
    let db = Database::new();
    assert_eq!(db.get_todos().unwrap().len(), 0);
}

#[test]
fn create_then_list_shows_new_todo() {
    let mut db = Database::new();
    db.add_todo(String::from("Buy milk")).unwrap();
    let todos = db.get_todos().unwrap();
    assert_eq!(todos.len(), 1);
    assert_eq!(todos[0].id, 1);
    assert_eq!(todos[0].description, "Buy milk");
    assert!(!todos[0].done);
}

#[test]
fn create_assigns_fresh_ascending_ids() {
    let mut db = Database::new();
    db.add_todo(String::from("first")).unwrap();
    db.add_todo(String::from("second")).unwrap();
    db.delete_todo(2).unwrap();
    db.add_todo(String::from("third")).unwrap();
    let todos = db.get_todos().unwrap();
    let ids: Vec<i32> = todos.iter().map(|t| t.id).collect();
    assert_eq!(ids, vec![1, 3]);
    assert_eq!(descriptions(&db), vec!["first", "third"]);
}

#[test]
fn toggle_flips_only_that_todo() {
    let mut db = Database::new();
    db.add_todo(String::from("first")).unwrap();
    db.add_todo(String::from("second")).unwrap();
    db.toggle_todo(1).unwrap();
    let todos = db.get_todos().unwrap();
    assert!(todos[0].done);
    assert!(!todos[1].done);
    assert_eq!(todos[0].description, "first");
    assert_eq!(todos[1].description, "second");
}

#[test]
fn toggle_twice_restores_the_flag() {
    let mut db = Database::new();
    db.add_todo(String::from("first")).unwrap();
    db.toggle_todo(1).unwrap();
    db.toggle_todo(1).unwrap();
    let todos = db.get_todos().unwrap();
    assert!(!todos[0].done);
}

#[test]
fn missing_id_operations_are_silent_noops() {
    let mut db = Database::new();
    db.add_todo(String::from("only")).unwrap();
    db.toggle_todo(99).unwrap();
    db.rename_todo(99, String::from("other")).unwrap();
    db.delete_todo(99).unwrap();
    let todos = db.get_todos().unwrap();
    assert_eq!(todos.len(), 1);
    assert_eq!(todos[0].id, 1);
    assert_eq!(todos[0].description, "only");
    assert!(!todos[0].done);
}

#[test]
fn delete_removes_exactly_that_todo() {
    let mut db = Database::new();
    db.add_todo(String::from("first")).unwrap();
    db.add_todo(String::from("second")).unwrap();
    db.add_todo(String::from("third")).unwrap();
    db.delete_todo(2).unwrap();
    let todos = db.get_todos().unwrap();
    assert_eq!(todos.len(), 2);
    assert!(todos.iter().all(|t| t.id != 2));
    assert_eq!(descriptions(&db), vec!["first", "third"]);
}

#[test]
fn rename_replaces_description_and_preserves_done() {
    let mut db = Database::new();
    db.add_todo(String::from("first")).unwrap();
    db.add_todo(String::from("second")).unwrap();
    db.toggle_todo(1).unwrap();
    db.rename_todo(1, String::from("renamed")).unwrap();
    let todos = db.get_todos().unwrap();
    assert_eq!(todos[0].description, "renamed");
    assert!(todos[0].done);
    assert_eq!(todos[1].description, "second");
    assert!(!todos[1].done);
}

#[test]
fn list_hands_out_copies_in_id_order() {
    let mut db = Database::new();
    db.add_todo(String::from("a")).unwrap();
    db.add_todo(String::from("b")).unwrap();
    let first = db.get_todos().unwrap();
    let second = db.get_todos().unwrap();
    assert_eq!(first.len(), second.len());
    for (x, y) in first.iter().zip(second.iter()) {
        assert_eq!(x.id, y.id);
        assert_eq!(x.description, y.description);
        assert_eq!(x.done, y.done);
    }
    assert!(first.windows(2).all(|w| w[0].id < w[1].id));
}
