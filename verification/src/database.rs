//! The persistence gateway model: the rows of the `todos` table, kept in
//! ascending id order, with the five operations the application issues
//! against it (list, create, toggle, rename, delete).

use vstd::prelude::*;
use crate::error::AppError;

verus! {

/// A single task record: an id assigned by the store on creation, a short
/// description, and a completion flag that defaults to false.
pub struct Todo {
    pub id: i32,
    pub description: String,
    pub done: bool,
}

/// The mathematical value of a `Todo`.
pub struct TodoView {
    pub id: int,
    pub description: Seq<char>,
    pub done: bool,
}

impl View for Todo {
    type V = TodoView;

    open spec fn view(&self) -> TodoView {
        TodoView { id: self.id as int, description: self.description@, done: self.done }
    }
}

/// The values of a sequence of records.
pub open spec fn views_of(todos: Seq<Todo>) -> Seq<TodoView> {
    todos.map_values(|t: Todo| t@)
}

/// What toggling does to a single record: the record with the given id has
/// its completion flag flipped; every other record is untouched.
pub open spec fn spec_toggle_one(t: TodoView, id: int) -> TodoView {
    if t.id == id {
        TodoView { done: !t.done, ..t }
    } else {
        t
    }
}

/// The table after `Toggle(id)`.
pub open spec fn spec_toggle(todos: Seq<TodoView>, id: int) -> Seq<TodoView> {
    todos.map_values(|t: TodoView| spec_toggle_one(t, id))
}

/// What renaming does to a single record: the record with the given id gets
/// the new description and keeps its completion flag; every other record is
/// untouched.
pub open spec fn spec_rename_one(t: TodoView, id: int, description: Seq<char>) -> TodoView {
    if t.id == id {
        TodoView { description: description, ..t }
    } else {
        t
    }
}

/// The table after `Rename(id, description)`.
pub open spec fn spec_rename(todos: Seq<TodoView>, id: int, description: Seq<char>) -> Seq<
    TodoView,
> {
    todos.map_values(|t: TodoView| spec_rename_one(t, id, description))
}

/// The table after `Delete(id)`: every record but the one with that id.
pub open spec fn spec_delete(todos: Seq<TodoView>, id: int) -> Seq<TodoView> {
    todos.filter(|t: TodoView| t.id != id)
}

/// The table after `Create(description)` when the store assigns `id`: the
/// new record is appended with its completion flag false.
pub open spec fn spec_add(todos: Seq<TodoView>, id: int, description: Seq<char>) -> Seq<TodoView> {
    todos.push(TodoView { id: id, description: description, done: false })
}

/// Whether some record in the table has the given id.
pub open spec fn contains_id(todos: Seq<TodoView>, id: int) -> bool {
    exists|i: int| 0 <= i < todos.len() && todos[i].id == id
}

/// The store: the sole owner of the application's durable state. Its value
/// is the sequence of records in ascending id order, as `List` returns it.
pub struct Database {
    todos: Vec<Todo>,
    next_id: i32,
}

impl View for Database {
    type V = Seq<TodoView>;

    closed spec fn view(&self) -> Seq<TodoView> {
        views_of(self.todos@)
    }
}

impl Database {
    /// The id the store will assign to the next created record.
    pub closed spec fn spec_next_id(&self) -> int {
        self.next_id as int
    }

    /// Well-formedness: ids start at 1, are strictly ascending (so never
    /// duplicated), and lie below the next id to assign (so an id is never
    /// reused once handed out).
    pub open spec fn wf(&self) -> bool {
        &&& 1 <= self.spec_next_id()
        &&& forall|i: int|
            #![trigger self@[i]]
            0 <= i < self@.len() ==> 1 <= self@[i].id < self.spec_next_id()
        &&& forall|i: int, j: int|
            #![trigger self@[i], self@[j]]
            0 <= i < j < self@.len() ==> self@[i].id < self@[j].id
    }

    /// An empty store; the first record created will get id 1.
    pub fn new() -> (db: Database)
        ensures
            db.wf(),
            db@ == Seq::<TodoView>::empty(),
            db.spec_next_id() == 1,
    {
        let db = Database { todos: Vec::new(), next_id: 1 };
        proof {
            assert(db@ =~= Seq::<TodoView>::empty());
        }
        db
    }

    /// `List`: every record, in ascending id order.
    pub fn get_todos(&self) -> (r: Result<Vec<Todo>, AppError>)
        ensures
            r is Ok,
            r matches Ok(todos) ==> views_of(todos@) == self@,
    {
        let mut listed: Vec<Todo> = Vec::new();
        let n = self.todos.len();
        let mut i: usize = 0;
        while i < n
            invariant
                i <= n,
                n == self.todos.len(),
                listed@.len() == i,
                forall|j: int| #![trigger listed@[j]] 0 <= j < i ==> listed@[j]@ == self.todos@[j]@,
            decreases n - i,
        {
            let t = &self.todos[i];
            listed.push(Todo { id: t.id, description: t.description.clone(), done: t.done });
            i += 1;
        }
        proof {
            assert(views_of(listed@) =~= self@);
        }
        Ok(listed)
    }

    /// `Create(description)`: inserts one row with the next id and a false
    /// completion flag. The id grows by one; nothing else changes.
    pub fn add_todo(&mut self, description: String) -> (r: Result<(), AppError>)
        requires
            old(self).wf(),
            old(self).spec_next_id() < i32::MAX,
        ensures
            final(self).wf(),
            r is Ok,
            final(self)@ == spec_add(old(self)@, old(self).spec_next_id(), description@),
            final(self).spec_next_id() == old(self).spec_next_id() + 1,
    {
        let id = self.next_id;
        self.next_id = self.next_id + 1;
        self.todos.push(Todo { id: id, description: description, done: false });
        proof {
            assert(self@ =~= spec_add(old(self)@, old(self).spec_next_id(), description@));
        }
        Ok(())
    }

    /// `Toggle(id)`: flips the completion flag of the record with that id;
    /// a no-op when no record has it. Never fails.
    pub fn toggle_todo(&mut self, id: i32) -> (r: Result<(), AppError>)
        requires
            old(self).wf(),
        ensures
            final(self).wf(),
            r is Ok,
            final(self)@ == spec_toggle(old(self)@, id as int),
            final(self).spec_next_id() == old(self).spec_next_id(),
    {
        let mut updated: Vec<Todo> = Vec::new();
        let n = self.todos.len();
        let mut i: usize = 0;
        while i < n
            invariant
                i <= n,
                n == self.todos.len(),
                updated@.len() == i,
                forall|j: int|
                    #![trigger updated@[j]]
                    0 <= j < i ==> updated@[j]@ == spec_toggle_one(self.todos@[j]@, id as int),
            decreases n - i,
        {
            let t = &self.todos[i];
            let done = if t.id == id {
                !t.done
            } else {
                t.done
            };
            updated.push(Todo { id: t.id, description: t.description.clone(), done: done });
            i += 1;
        }
        proof {
            assert(views_of(updated@) =~= spec_toggle(self@, id as int));
        }
        self.todos = updated;
        Ok(())
    }

    /// `Rename(id, description)`: replaces the description of the record
    /// with that id, keeping its completion flag; a no-op when no record
    /// has it. Never fails.
    pub fn rename_todo(&mut self, id: i32, description: String) -> (r: Result<(), AppError>)
        requires
            old(self).wf(),
        ensures
            final(self).wf(),
            r is Ok,
            final(self)@ == spec_rename(old(self)@, id as int, description@),
            final(self).spec_next_id() == old(self).spec_next_id(),
    {
        let mut updated: Vec<Todo> = Vec::new();
        let n = self.todos.len();
        let mut i: usize = 0;
        while i < n
            invariant
                i <= n,
                n == self.todos.len(),
                updated@.len() == i,
                forall|j: int|
                    #![trigger updated@[j]]
                    0 <= j < i ==> updated@[j]@ == spec_rename_one(
                        self.todos@[j]@,
                        id as int,
                        description@,
                    ),
            decreases n - i,
        {
            let t = &self.todos[i];
            let desc = if t.id == id {
                description.clone()
            } else {
                t.description.clone()
            };
            updated.push(Todo { id: t.id, description: desc, done: t.done });
            i += 1;
        }
        proof {
            assert(views_of(updated@) =~= spec_rename(self@, id as int, description@));
        }
        self.todos = updated;
        Ok(())
    }

    /// `Delete(id)`: removes the record with that id; a no-op when no
    /// record has it. Never fails.
    pub fn delete_todo(&mut self, id: i32) -> (r: Result<(), AppError>)
        requires
            old(self).wf(),
        ensures
            final(self).wf(),
            r is Ok,
            final(self)@ == spec_delete(old(self)@, id as int),
            final(self).spec_next_id() == old(self).spec_next_id(),
    {
        let mut kept: Vec<Todo> = Vec::new();
        let n = self.todos.len();
        let mut i: usize = 0;
        while i < n
            invariant
                i <= n,
                n == self.todos.len(),
                self.wf(),
                views_of(kept@) == spec_delete(self@.subrange(0, i as int), id as int),
                forall|a: int, b: int|
                    #![trigger kept@[a], kept@[b]]
                    0 <= a < b < kept@.len() ==> kept@[a]@.id < kept@[b]@.id,
                forall|a: int|
                    #![trigger kept@[a]]
                    0 <= a < kept@.len() ==> 1 <= kept@[a]@.id < self.spec_next_id(),
                forall|a: int|
                    #![trigger kept@[a]]
                    0 <= a < kept@.len() && i < n ==> kept@[a]@.id < self.todos@[i as int]@.id,
            decreases n - i,
        {
            let t = &self.todos[i];
            if t.id != id {
                kept.push(Todo { id: t.id, description: t.description.clone(), done: t.done });
            }
            proof {
                reveal(Seq::filter);
                let prefix = self@.subrange(0, i as int);
                let prefix1 = self@.subrange(0, i + 1 as int);
                assert(prefix1.drop_last() =~= prefix);
                assert(prefix1.last() == self@[i as int]);
                assert(views_of(kept@) =~= spec_delete(prefix1, id as int));
                if i + 1 < n {
                    assert(self@[i as int].id < self@[i as int + 1].id);
                    assert(self@[i as int] == self.todos@[i as int]@);
                    assert(self@[i as int + 1] == self.todos@[i as int + 1]@);
                }
            }
            i += 1;
        }
        proof {
            assert(self@.subrange(0, n as int) =~= self@);
            assert(views_of(kept@) == spec_delete(self@, id as int));
        }
        self.todos = kept;
        Ok(())
    }
}

} // verus!
