//! The view renderer: turns the todo list into the HTML body of `GET /`,
//! one list item per record showing its id, description and done state.

use vstd::prelude::*;
use vstd::string::StringExecFns;
use crate::database::{TodoView, views_of};
use crate::handlers::IndexTemplate;

verus! {

/// The decimal digit `d` as text.
pub open spec fn spec_digit_str(d: int) -> Seq<char> {
    if d == 0 {
        "0"@
    } else if d == 1 {
        "1"@
    } else if d == 2 {
        "2"@
    } else if d == 3 {
        "3"@
    } else if d == 4 {
        "4"@
    } else if d == 5 {
        "5"@
    } else if d == 6 {
        "6"@
    } else if d == 7 {
        "7"@
    } else if d == 8 {
        "8"@
    } else {
        "9"@
    }
}

/// The decimal digits of a positive number, most significant first; empty
/// for zero and below.
pub open spec fn spec_digits(n: int) -> Seq<char>
    decreases n,
{
    if n <= 0 {
        Seq::<char>::empty()
    } else {
        spec_digits(n / 10) + spec_digit_str(n % 10)
    }
}

/// A number in decimal, with a leading minus sign when negative.
pub open spec fn spec_int_str(n: int) -> Seq<char> {
    if n == 0 {
        "0"@
    } else if n < 0 {
        "-"@ + spec_digits(-n)
    } else {
        spec_digits(n)
    }
}

/// One decimal digit as text.
fn digit_str(d: u64) -> (r: &'static str)
    requires
        d < 10,
    ensures
        r@ == spec_digit_str(d as int),
{
    match d {
        0 => "0",
        1 => "1",
        2 => "2",
        3 => "3",
        4 => "4",
        5 => "5",
        6 => "6",
        7 => "7",
        8 => "8",
        _ => "9",
    }
}

/// Appends the decimal digits of `n` to `out`.
fn push_digits(n: u64, out: &mut String)
    ensures
        final(out)@ == old(out)@ + spec_digits(n as int),
    decreases n,
{
    if n == 0 {
        proof {
            assert(old(out)@ + spec_digits(0) =~= old(out)@);
        }
    } else {
        push_digits(n / 10, out);
        let d = digit_str(n % 10);
        out.append(d);
        proof {
            assert(old(out)@ + (spec_digits(n as int / 10) + spec_digit_str(n as int % 10)) =~= (
            old(out)@ + spec_digits(n as int / 10)) + spec_digit_str(n as int % 10));
        }
    }
}

/// A number rendered in decimal.
pub fn int_to_string(n: i32) -> (s: String)
    ensures
        s@ == spec_int_str(n as int),
{
    if n == 0 {
        String::from_str("0")
    } else if n < 0 {
        let mut s = String::from_str("-");
        let magnitude = (-(n as i64)) as u64;
        push_digits(magnitude, &mut s);
        s
    } else {
        let mut s = String::new();
        push_digits(n as u64, &mut s);
        proof {
            assert(Seq::<char>::empty() + spec_digits(n as int) =~= spec_digits(n as int));
        }
        s
    }
}

/// One list item: the record's id, a checkbox reflecting its done state,
/// and its description.
pub open spec fn spec_render_row(t: TodoView) -> Seq<char> {
    "<li>"@ + spec_int_str(t.id) + ": <input type=\"checkbox\""@ + (if t.done {
        " checked"@
    } else {
        Seq::<char>::empty()
    }) + "> "@ + t.description + "</li>"@
}

/// The list items of every record, in order.
pub open spec fn spec_render_rows(todos: Seq<TodoView>) -> Seq<char>
    decreases todos.len(),
{
    if todos.len() == 0 {
        Seq::<char>::empty()
    } else {
        spec_render_rows(todos.drop_last()) + spec_render_row(todos.last())
    }
}

/// The whole page body: the records as one unordered list.
pub open spec fn spec_render_index(todos: Seq<TodoView>) -> Seq<char> {
    "<ul>"@ + spec_render_rows(todos) + "</ul>"@
}

impl IndexTemplate {
    /// Renders the page body for `GET /`. Never fails.
    pub fn render(&self) -> (r: String)
        ensures
            r@ == spec_render_index(views_of(self.todos@)),
    {
        let ghost views = views_of(self.todos@);
        let mut out = String::from_str("<ul>");
        let n = self.todos.len();
        let mut i: usize = 0;
        while i < n
            invariant
                i <= n,
                n == self.todos.len(),
                views == views_of(self.todos@),
                out@ == "<ul>"@ + spec_render_rows(views.subrange(0, i as int)),
            decreases n - i,
        {
            let t = &self.todos[i];
            out.append("<li>");
            let id_text = int_to_string(t.id);
            out.append(id_text.as_str());
            out.append(": <input type=\"checkbox\"");
            if t.done {
                out.append(" checked");
            }
            out.append("> ");
            out.append(t.description.as_str());
            out.append("</li>");
            proof {
                let prefix1 = views.subrange(0, i as int + 1);
                assert(prefix1.drop_last() =~= views.subrange(0, i as int));
                assert(prefix1.last() == views[i as int]);
                assert(views[i as int] == self.todos@[i as int]@);
                assert(out@ =~= "<ul>"@ + spec_render_rows(prefix1));
            }
            i += 1;
        }
        out.append("</ul>");
        proof {
            assert(views.subrange(0, n as int) =~= views);
            assert(out@ =~= spec_render_index(views));
        }
        out
    }
}

} // verus!
