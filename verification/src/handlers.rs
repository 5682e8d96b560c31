//! The per-endpoint handler decisions: validate the input, apply the one
//! store operation the endpoint stands for, and choose the response — a
//! page for the renderer, a redirect home, or an error.

use vstd::prelude::*;
use vstd::string::StringExecFns;
use crate::database::{
    Database, Todo, spec_add, spec_delete, spec_rename, spec_toggle, views_of,
};
use crate::error::AppError;
use crate::forms::{NewTodo, RenameTodo, ValidatedForm, valid_description};

verus! {

/// The page data for `GET /`: every todo, in ascending id order, handed to
/// the view renderer.
pub struct IndexTemplate {
    pub todos: Vec<Todo>,
}

/// A redirect response: `303 See Other` with the given location.
pub struct Redirect {
    pub location: String,
}

impl Redirect {
    /// The status code of every redirect the handlers produce.
    pub open spec fn spec_status_code(&self) -> u16 {
        303
    }

    pub fn to(location: &str) -> (r: Redirect)
        ensures
            r.location@ == location@,
    {
        Redirect { location: String::from_str(location) }
    }

    pub fn status_code(&self) -> (code: u16)
        ensures
            code == self.spec_status_code(),
    {
        303
    }
}

/// `GET /`: list all todos and hand them to the renderer.
pub fn index(database: &Database) -> (r: Result<IndexTemplate, AppError>)
    ensures
        r is Ok,
        r matches Ok(page) ==> views_of(page.todos@) == database@,
{
    match database.get_todos() {
        Ok(todos) => Ok(IndexTemplate { todos }),
        Err(e) => Err(e),
    }
}

/// `POST /`: validate the body, create the todo, redirect home. A body
/// that fails the length constraint is rejected with a client error and
/// leaves the store untouched.
pub fn add_todo(database: &mut Database, new_todo: NewTodo) -> (r: Result<Redirect, AppError>)
    requires
        old(database).wf(),
        old(database).spec_next_id() < i32::MAX,
    ensures
        final(database).wf(),
        valid_description(new_todo.description@) ==> {
            &&& r matches Ok(redirect) && redirect.location@ == "/"@
            &&& final(database)@ == spec_add(
                old(database)@,
                old(database).spec_next_id(),
                new_todo.description@,
            )
            &&& final(database).spec_next_id() == old(database).spec_next_id() + 1
        },
        !valid_description(new_todo.description@) ==> {
            &&& r matches Err(e) && e is Validation && e.spec_status_code() == 400
            &&& final(database)@ == old(database)@
            &&& final(database).spec_next_id() == old(database).spec_next_id()
        },
{
    match ValidatedForm::from_parsed(new_todo) {
        Ok(form) => match database.add_todo(form.0.description) {
            Ok(()) => Ok(Redirect::to("/")),
            Err(e) => Err(e),
        },
        Err(e) => Err(e),
    }
}

/// `POST /rename/{id}`: validate the body, replace the description of the
/// record with that id (a no-op when the id is absent), redirect home.
pub fn rename_todo(database: &mut Database, id: i32, todo: RenameTodo) -> (r: Result<
    Redirect,
    AppError,
>)
    requires
        old(database).wf(),
    ensures
        final(database).wf(),
        final(database).spec_next_id() == old(database).spec_next_id(),
        valid_description(todo.description@) ==> {
            &&& r matches Ok(redirect) && redirect.location@ == "/"@
            &&& final(database)@ == spec_rename(old(database)@, id as int, todo.description@)
        },
        !valid_description(todo.description@) ==> {
            &&& r matches Err(e) && e is Validation && e.spec_status_code() == 400
            &&& final(database)@ == old(database)@
        },
{
    match ValidatedForm::from_parsed(todo) {
        Ok(form) => match database.rename_todo(id, form.0.description) {
            Ok(()) => Ok(Redirect::to("/")),
            Err(e) => Err(e),
        },
        Err(e) => Err(e),
    }
}

/// `POST /toggle/{id}`: flip the completion flag of the record with that
/// id (a no-op when the id is absent), redirect home.
pub fn toggle_todo(database: &mut Database, id: i32) -> (r: Result<Redirect, AppError>)
    requires
        old(database).wf(),
    ensures
        final(database).wf(),
        final(database).spec_next_id() == old(database).spec_next_id(),
        r matches Ok(redirect) && redirect.location@ == "/"@,
        final(database)@ == spec_toggle(old(database)@, id as int),
{
    match database.toggle_todo(id) {
        Ok(()) => Ok(Redirect::to("/")),
        Err(e) => Err(e),
    }
}

/// `POST /delete/{id}`: remove the record with that id (a no-op when the
/// id is absent), redirect home.
pub fn delete_todo(database: &mut Database, id: i32) -> (r: Result<Redirect, AppError>)
    requires
        old(database).wf(),
    ensures
        final(database).wf(),
        final(database).spec_next_id() == old(database).spec_next_id(),
        r matches Ok(redirect) && redirect.location@ == "/"@,
        final(database)@ == spec_delete(old(database)@, id as int),
{
    match database.delete_todo(id) {
        Ok(()) => Ok(Redirect::to("/")),
        Err(e) => Err(e),
    }
}

} // verus!
