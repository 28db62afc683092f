//! A row of the task table, how it reads to the model, and how an update
//! merges into it.
use vstd::prelude::*;
use crate::text::{decimal, decimal_text};

verus! {

/// A task as the store holds it.
#[derive(Debug, PartialEq, Eq)]
pub struct DbTask {
    pub id: i32,
    pub name: String,
    pub completed: bool,
}

pub open spec fn bool_text(b: bool) -> Seq<char> {
    if b {
        "true"@
    } else {
        "false"@
    }
}

/// How a task reads: `id: 7, name: buy milk, completed: false`.
pub open spec fn task_text(id: i32, name: Seq<char>, completed: bool) -> Seq<char> {
    "id: "@ + decimal_text(id as int) + ", name: "@ + name + ", completed: "@ + bool_text(completed)
}

/// The name after an update: a new non-empty name replaces it, anything else keeps it.
pub open spec fn updated_name(name: Seq<char>, new_name: Option<Seq<char>>) -> Seq<char> {
    match new_name {
        Some(n) => if n.len() > 0 {
            n
        } else {
            name
        },
        None => name,
    }
}

/// The completion flag after an update: a given flag replaces it.
pub open spec fn updated_completed(completed: bool, new_completed: Option<bool>) -> bool {
    match new_completed {
        Some(c) => c,
        None => completed,
    }
}

/// The text of an optional borrowed string.
pub open spec fn opt_view(s: Option<&str>) -> Option<Seq<char>> {
    match s {
        Some(t) => Some(t@),
        None => None,
    }
}

impl DbTask {
    pub fn new(id: i32, name: &str, completed: bool) -> (r: DbTask)
        ensures
            r.id == id,
            r.name@ == name@,
            r.completed == completed,
    {
        DbTask { id, name: String::from_str(name), completed }
    }

    /// The task as text for the model.
    pub fn to_string(&self) -> (r: String)
        ensures
            r@ == task_text(self.id, self.name@, self.completed),
    {
        let flag = if self.completed {
            "true"
        } else {
            "false"
        };
        let r = String::from_str("id: ");
        let r = r.concat(decimal(self.id as i128).as_str());
        let r = r.concat(", name: ");
        let r = r.concat(self.name.as_str());
        let r = r.concat(", completed: ");
        r.concat(flag)
    }

    /// The row that an update asks for: the id stays, an empty new name is
    /// ignored, an absent field is left as it is.
    pub fn apply_update(&self, name: Option<&str>, completed: Option<bool>) -> (r: DbTask)
        ensures
            r.id == self.id,
            r.name@ == updated_name(self.name@, opt_view(name)),
            r.completed == updated_completed(self.completed, completed),
    {
        let new_name = match name {
            Some(n) => if n.is_empty() {
                self.name.clone()
            } else {
                String::from_str(n)
            },
            None => self.name.clone(),
        };
        let new_completed = match completed {
            Some(c) => c,
            None => self.completed,
        };
        DbTask { id: self.id, name: new_name, completed: new_completed }
    }
}

/// An update that gives no new values leaves the row as it was, an empty
/// name keeps the old one, and repeating an update changes nothing further.
pub proof fn lemma_update_unchanged(
    name: Seq<char>,
    completed: bool,
    new_name: Option<Seq<char>>,
    new_completed: Option<bool>,
)
    ensures
        updated_name(name, None) == name,
        updated_name(name, Some(Seq::<char>::empty())) == name,
        updated_completed(completed, None) == completed,
        updated_name(updated_name(name, new_name), new_name) == updated_name(name, new_name),
        updated_completed(updated_completed(completed, new_completed), new_completed)
            == updated_completed(completed, new_completed),
{
}

} // verus!
