//! Laws of the store: what a `List` after each operation shows, stated over
//! the table values the operations' contracts use.

use vstd::prelude::*;
use crate::database::{
    TodoView, contains_id, spec_add, spec_delete, spec_rename, spec_rename_one, spec_toggle,
    spec_toggle_one,
};
use crate::forms::valid_description;

verus! {

/// After `Create(description)` assigns `id`, the list has grown by exactly
/// the new record: that id with that description, not yet done, at the end;
/// every record that was there before is unchanged.
pub proof fn lemma_create_then_list(todos: Seq<TodoView>, id: int, description: Seq<char>)
    requires
        valid_description(description),
    ensures
        spec_add(todos, id, description).len() == todos.len() + 1,
        spec_add(todos, id, description)[todos.len() as int] == (TodoView {
            id: id,
            description: description,
            done: false,
        }),
        contains_id(spec_add(todos, id, description), id),
        forall|i: int|
            #![trigger spec_add(todos, id, description)[i]]
            0 <= i < todos.len() ==> spec_add(todos, id, description)[i] == todos[i],
{
    let after = spec_add(todos, id, description);
    assert(after[todos.len() as int].id == id);
}

/// After `Toggle(id)`, the record with that id has its done flag flipped
/// and keeps its id and description; every other record is unchanged; no
/// record appears or disappears.
pub proof fn lemma_toggle_then_list(todos: Seq<TodoView>, id: int)
    ensures
        spec_toggle(todos, id).len() == todos.len(),
        forall|i: int|
            #![trigger todos[i]]
            0 <= i < todos.len() && todos[i].id == id ==> spec_toggle(todos, id)[i] == (TodoView {
                done: !todos[i].done,
                ..todos[i]
            }),
        forall|i: int|
            #![trigger todos[i]]
            0 <= i < todos.len() && todos[i].id != id ==> spec_toggle(todos, id)[i] == todos[i],
{
    assert forall|i: int| 0 <= i < todos.len() implies spec_toggle(todos, id)[i] == spec_toggle_one(
        #[trigger] todos[i],
        id,
    ) by {}
}

/// Toggling twice restores the list: each record's done flag is flipped
/// back and nothing else ever moved.
pub proof fn lemma_toggle_twice(todos: Seq<TodoView>, id: int)
    ensures
        spec_toggle(spec_toggle(todos, id), id) == todos,
{
    assert(spec_toggle(spec_toggle(todos, id), id) =~= todos);
}

/// After `Rename(id, description)`, the record with that id shows the new
/// description and keeps its id and done flag; every other record is
/// unchanged; no record appears or disappears.
pub proof fn lemma_rename_then_list(todos: Seq<TodoView>, id: int, description: Seq<char>)
    ensures
        spec_rename(todos, id, description).len() == todos.len(),
        forall|i: int|
            #![trigger todos[i]]
            0 <= i < todos.len() && todos[i].id == id ==> spec_rename(todos, id, description)[i]
                == (TodoView { description: description, ..todos[i] }),
        forall|i: int|
            #![trigger todos[i]]
            0 <= i < todos.len() && todos[i].id != id ==> spec_rename(todos, id, description)[i]
                == todos[i],
{
    assert forall|i: int| 0 <= i < todos.len() implies spec_rename(todos, id, description)[i]
        == spec_rename_one(#[trigger] todos[i], id, description) by {}
}

/// After `Delete(id)`, no record with that id is listed.
pub proof fn lemma_delete_then_list(todos: Seq<TodoView>, id: int)
    ensures
        !contains_id(spec_delete(todos, id), id),
{
    broadcast use vstd::seq_lib::group_filter_ensures;

    let after = spec_delete(todos, id);
    assert forall|i: int| 0 <= i < after.len() implies (#[trigger] after[i]).id != id by {
        assert(after[i] == todos.filter(|t: TodoView| t.id != id)[i]);
    }
}

/// Helper for the no-op law: filtering a sequence by a predicate that every
/// element meets leaves it unchanged.
proof fn lemma_filter_everything_kept(todos: Seq<TodoView>, pred: spec_fn(TodoView) -> bool)
    requires
        forall|i: int| 0 <= i < todos.len() ==> pred(#[trigger] todos[i]),
    ensures
        todos.filter(pred) == todos,
    decreases todos.len(),
{
    reveal(Seq::filter);
    if todos.len() == 0 {
        assert(todos.filter(pred) =~= todos);
    } else {
        let front = todos.drop_last();
        assert(forall|i: int| 0 <= i < front.len() ==> pred(#[trigger] front[i]));
        lemma_filter_everything_kept(front, pred);
        assert(pred(todos.last()));
        assert(front.push(todos.last()) =~= todos);
    }
}

/// An operation on an id that no record has is a silent no-op: toggling,
/// renaming or deleting it leaves the list exactly as it was.
pub proof fn lemma_missing_id_is_noop(todos: Seq<TodoView>, id: int, description: Seq<char>)
    requires
        !contains_id(todos, id),
    ensures
        spec_toggle(todos, id) == todos,
        spec_rename(todos, id, description) == todos,
        spec_delete(todos, id) == todos,
{
    assert forall|i: int| 0 <= i < todos.len() implies (#[trigger] todos[i]).id != id by {
        if todos[i].id == id {
            assert(contains_id(todos, id));
        }
    }
    assert(spec_toggle(todos, id) =~= todos);
    assert(spec_rename(todos, id, description) =~= todos);
    lemma_filter_everything_kept(todos, |t: TodoView| t.id != id);
}

} // verus!
