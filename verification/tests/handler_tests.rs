use todo_list::database::Database;
use todo_list::error::AppError;
use todo_list::forms::{
    description_is_valid, NewTodo, RenameTodo, Validate, ValidatedForm,
    MAX_DESCRIPTION_CHARS, MIN_DESCRIPTION_CHARS,
};
use todo_list::handlers;

#[test]
fn description_length_bounds() {
    assert_eq!(MIN_DESCRIPTION_CHARS, 1);
    assert_eq!(MAX_DESCRIPTION_CHARS, 25);
    assert!(!description_is_valid(""));
    assert!(description_is_valid("a"));
    assert!(description_is_valid("exactly-twenty-five-chars"));
    assert!(!description_is_valid("exactly-twenty-six-charss!"));
}

#[test]
fn description_length_counts_characters_not_bytes() {
    // 25 two-byte characters: valid by character count.
    let twenty_five = "é".repeat(25);
    assert!(description_is_valid(&twenty_five));
    let twenty_six = "é".repeat(26);
    assert!(!description_is_valid(&twenty_six));
}

#[test]
fn validate_accepts_and_rejects() {
    let ok = NewTodo { description: String::from("Buy milk") };
    assert!(ok.validate().is_ok());
    let empty = NewTodo { description: String::new() };
    match empty.validate() {
        Err(AppError::Validation(msg)) => assert!(msg.contains("between 1 and 25")),
        _ => panic!("empty description must fail validation"),
    }
    let long = RenameTodo { description: "x".repeat(26) };
    assert!(matches!(long.validate(), Err(AppError::Validation(_))));
}

#[test]
fn validated_form_wraps_valid_input() {
    let form = ValidatedForm::from_parsed(NewTodo { description: String::from("ok") }).unwrap();
    assert_eq!(form.0.description, "ok");
    let rejected = ValidatedForm::from_parsed(NewTodo { description: String::new() });
    assert!(matches!(rejected, Err(AppError::Validation(_))));
}

#[test]
fn add_handler_creates_and_redirects() {
    let mut db = Database::new();
    let new_todo = NewTodo { description: String::from("Buy milk") };
    let redirect = handlers::add_todo(&mut db, new_todo).unwrap();
    assert_eq!(redirect.location, "/");
    assert_eq!(redirect.status_code(), 303);
    let page = handlers::index(&db).unwrap();
    assert_eq!(page.todos.len(), 1);
    assert_eq!(page.todos[0].description, "Buy milk");
    assert!(!page.todos[0].done);
}

#[test]
fn add_handler_rejects_invalid_description_without_a_row() {
    let mut db = Database::new();
    for bad in [String::new(), "x".repeat(26)] {
        let result = handlers::add_todo(&mut db, NewTodo { description: bad });
        match result {
            Err(e) => assert_eq!(e.status_code(), 400),
            Ok(_) => panic!("invalid description must be rejected"),
        }
    }
    assert_eq!(handlers::index(&db).unwrap().todos.len(), 0);
}

#[test]
fn rename_handler_validates_and_renames() {
    let mut db = Database::new();
    handlers::add_todo(&mut db, NewTodo { description: String::from("old") }).unwrap();
    let bad = handlers::rename_todo(&mut db, 1, RenameTodo { description: String::new() });
    assert!(matches!(bad, Err(AppError::Validation(_))));
    assert_eq!(handlers::index(&db).unwrap().todos[0].description, "old");
    let redirect =
        handlers::rename_todo(&mut db, 1, RenameTodo { description: String::from("new") })
            .unwrap();
    assert_eq!(redirect.location, "/");
    assert_eq!(handlers::index(&db).unwrap().todos[0].description, "new");
}

#[test]
fn toggle_and_delete_handlers_redirect_home() {
    let mut db = Database::new();
    handlers::add_todo(&mut db, NewTodo { description: String::from("task") }).unwrap();
    let redirect = handlers::toggle_todo(&mut db, 1).unwrap();
    assert_eq!(redirect.location, "/");
    assert!(handlers::index(&db).unwrap().todos[0].done);
    let redirect = handlers::delete_todo(&mut db, 1).unwrap();
    assert_eq!(redirect.location, "/");
    assert!(handlers::index(&db).unwrap().todos.is_empty());
}

#[test]
fn handlers_on_missing_id_redirect_and_change_nothing() {
    let mut db = Database::new();
    handlers::add_todo(&mut db, NewTodo { description: String::from("task") }).unwrap();
    assert!(handlers::toggle_todo(&mut db, 42).is_ok());
    assert!(handlers::rename_todo(&mut db, 42, RenameTodo { description: String::from("x") })
        .is_ok());
    assert!(handlers::delete_todo(&mut db, 42).is_ok());
    let todos = handlers::index(&db).unwrap().todos;
    assert_eq!(todos.len(), 1);
    assert_eq!(todos[0].description, "task");
    assert!(!todos[0].done);
}

#[test]
fn error_mapper_statuses_and_messages() {
    let cases = [
        (AppError::Sqlx(String::from("connection refused")), 500),
        (AppError::Validation(String::from("too long")), 400),
        (AppError::FormRejection(String::from("missing field")), 400),
        (AppError::Askama(String::from("render failed")), 500),
    ];
    for (err, status) in cases {
        assert_eq!(err.status_code(), status);
        let text = err.message().clone();
        let (code, body) = err.into_response();
        assert_eq!(code, status);
        assert_eq!(body, text);
    }
}
