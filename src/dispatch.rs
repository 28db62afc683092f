//! The decisions of the tool-dispatch loop. The loop itself, which talks to
//! the model, the task store and the terminal, hands each event to these
//! functions and performs the action they return.
use vstd::prelude::*;
use crate::chat_request::{
    grew_by, lemma_grew_by_nothing, lemma_grew_by_trans, recorded, Chat, TransportError,
};
use crate::commands::{
    command_for, decoded_arguments, decoded_command, first_call_arguments, first_call_name,
    has_tool_call, Command,
};
use crate::message::{lookup, Arguments, Message, Role};
use crate::task::{task_text, DbTask};
use crate::text::{
    ascii_lower, decimal, decimal_text, folded, is_ascii_text, lowercase, parse_i32, parsed_i32,
};
use crate::tool::names;

verus! {

/// A request to the task store.
#[derive(Debug, PartialEq, Eq)]
pub enum StoreRequest {
    Insert { name: String },
    GetAll,
    GetById { id: i32 },
    Update { id: i32, new_name: Option<String>, completed: Option<bool> },
    Delete { id: i32 },
    EraseAll,
}

/// What the task store answered, by request; an error comes as its text.
#[derive(Debug, PartialEq, Eq)]
pub enum StoreOutcome {
    Inserted(Result<DbTask, String>),
    AllTasks(Result<Vec<DbTask>, String>),
    Found(Result<Option<DbTask>, String>),
    Updated(Result<Option<DbTask>, String>),
    Deleted(Result<u64, String>),
    Erased(Result<u64, String>),
}

/// What the loop does next.
#[derive(Debug, PartialEq, Eq)]
pub enum Action {
    /// Send the transcript to the model again.
    Advance,
    /// Show these texts to the user, read one line and hand it to
    /// `record_user_input`.
    AskUser(Vec<String>),
    /// Run the request against the task store and hand the outcome to
    /// `record_outcome`.
    Store(StoreRequest),
    /// Send the transcript once more and end with that reply.
    Finish,
}

/// The `id` argument of a tool call, as read.
#[derive(Debug, Clone, Copy, PartialEq, Eq, Structural)]
pub enum IdArgument {
    Missing,
    Malformed,
    Valid(i32),
}

pub open spec fn id_argument_of(args: Seq<(Seq<char>, Seq<char>)>) -> IdArgument {
    match lookup(args, "id"@) {
        None => IdArgument::Missing,
        Some(text) => match parsed_i32(text) {
            None => IdArgument::Malformed,
            Some(id) => IdArgument::Valid(id),
        },
    }
}

pub open spec fn opt_text(s: Option<String>) -> Option<Seq<char>> {
    match s {
        Some(t) => Some(t@),
        None => None,
    }
}

/// The completion flag that an update asks for: the text `true` in any case
/// means done, any other text not done.
pub open spec fn completed_of(args: Seq<(Seq<char>, Seq<char>)>) -> Option<bool> {
    match lookup(args, "completed"@) {
        Some(text) => Some(folded(text) == "true"@),
        None => None,
    }
}

pub open spec fn tool_says(text: Seq<char>) -> Seq<(Role, Seq<char>)> {
    seq![(Role::Tool, text)]
}

pub open spec fn task_line(t: DbTask) -> Seq<char> {
    task_text(t.id, t.name@, t.completed)
}

/// The transcript entries that a store outcome becomes.
pub open spec fn outcome_texts(o: StoreOutcome) -> Seq<(Role, Seq<char>)> {
    match o {
        StoreOutcome::Inserted(Ok(t)) => tool_says(
            "The task was created in the database successfully! Here is the full task that was created: "@
                + task_line(t),
        ),
        StoreOutcome::Inserted(Err(e)) => tool_says(
            "There was an error inserting the task into the database: "@ + e@,
        ),
        StoreOutcome::AllTasks(Ok(v)) => v@.map_values(|t: DbTask| (Role::Tool, task_line(t))),
        StoreOutcome::AllTasks(Err(e)) => tool_says(
            "There was an error getting the tasks from the database: "@ + e@,
        ),
        StoreOutcome::Found(Ok(Some(t))) => tool_says(task_line(t)),
        StoreOutcome::Found(Ok(None)) => tool_says("No task exists with the given id"@),
        StoreOutcome::Found(Err(e)) => tool_says(
            "There was an error getting the task from the database: "@ + e@,
        ),
        StoreOutcome::Updated(Ok(Some(t))) => tool_says(
            "The task has been updated. Here is the updated task: "@ + task_line(t),
        ),
        StoreOutcome::Updated(Ok(None)) => tool_says(
            "Error: The task with the supplied id was not found, so the task could not be updated"@,
        ),
        StoreOutcome::Updated(Err(e)) => tool_says(
            "There was the following error when attempting to update the task in the database: "@
                + e@,
        ),
        StoreOutcome::Deleted(Ok(n)) => tool_says(
            "Success, "@ + decimal_text(n as int) + " tasks have been deleted from the database"@,
        ),
        StoreOutcome::Deleted(Err(e)) => tool_says(
            "Error deleting the task from the database: "@ + e@,
        ),
        StoreOutcome::Erased(Ok(n)) => tool_says(
            "You have erased the database! "@ + decimal_text(n as int)
                + " tasks were removed in this purge. You may allow yourself to express remorse or mad scientist vibes for your reply"@,
        ),
        StoreOutcome::Erased(Err(e)) => tool_says(
            "There was an error erasing the database! The error was "@ + e@,
        ),
    }
}

/// The action is a store request that passes the arguments' `name`.
pub open spec fn inserts(a: Action, name: Seq<char>) -> bool {
    match a {
        Action::Store(StoreRequest::Insert { name: n }) => n@ == name,
        _ => false,
    }
}

pub open spec fn is_request(a: Action, r: StoreRequest) -> bool {
    match a {
        Action::Store(q) => q == r,
        _ => false,
    }
}

/// What the insert handler does with the arguments.
pub open spec fn insert_handled(
    before: Chat,
    args: Seq<(Seq<char>, Seq<char>)>,
    after: Chat,
    a: Action,
) -> bool {
    match lookup(args, "name"@) {
        None => grew_by(
            before,
            after,
            tool_says(
                "Error, name was not passed into the tool correctly, please try again, but this time pass in the new task name"@,
            ),
        ) && a is Advance,
        Some(n) => after == before && inserts(a, n),
    }
}

/// What a handler that needs an `id` does when it is missing or malformed,
/// and otherwise whether the request `ok` holds of the action.
pub open spec fn id_handled(
    before: Chat,
    args: Seq<(Seq<char>, Seq<char>)>,
    after: Chat,
    a: Action,
    missing: Seq<char>,
    malformed: Seq<char>,
    ok: spec_fn(i32, Action) -> bool,
) -> bool {
    match id_argument_of(args) {
        IdArgument::Missing => grew_by(before, after, tool_says(missing)) && a is Advance,
        IdArgument::Malformed => grew_by(before, after, tool_says(malformed)) && a is Advance,
        IdArgument::Valid(id) => after == before && ok(id, a),
    }
}

pub open spec fn gets_by_id(id: i32, a: Action) -> bool {
    is_request(a, StoreRequest::GetById { id })
}

pub open spec fn deletes(id: i32, a: Action) -> bool {
    is_request(a, StoreRequest::Delete { id })
}

pub open spec fn updates(args: Seq<(Seq<char>, Seq<char>)>) -> spec_fn(i32, Action) -> bool {
    |id: i32, a: Action|
        match a {
            Action::Store(StoreRequest::Update { id: i, new_name, completed }) => i == id && opt_text(
                new_name,
            ) == lookup(args, "name"@) && completed == completed_of(args),
            _ => false,
        }
}

/// The action shows the values of the arguments, in order, and reads a line.
pub open spec fn asks_user(a: Action, args: Seq<(Seq<char>, Seq<char>)>) -> bool {
    match a {
        Action::AskUser(v) => names(v) == args.map_values(|e: (Seq<char>, Seq<char>)| e.1),
        _ => false,
    }
}

/// What the loop does with a decoded command and its arguments.
pub open spec fn handled(
    before: Chat,
    c: Command,
    args: Seq<(Seq<char>, Seq<char>)>,
    after: Chat,
    a: Action,
) -> bool {
    match c {
        Command::Chat => after == before && asks_user(a, args),
        Command::InsertTaskIntoDb => insert_handled(before, args, after, a),
        Command::GetAllTasksFromDb => after == before && is_request(a, StoreRequest::GetAll),
        Command::GetTaskByIdFromDb => id_handled(
            before,
            args,
            after,
            a,
            "Error, the id for the task you want to get was not passed into the tool."@,
            "ERROR: The id you passed in was not a number"@,
            |id: i32, a: Action| gets_by_id(id, a),
        ),
        Command::UpdateTaskInDb => id_handled(
            before,
            args,
            after,
            a,
            "Error, an id was not passed into the update tool"@,
            "The id that you passed into the update tool was not a valid id, please try again but use a valid id."@,
            updates(args),
        ),
        Command::DeleteTaskInDb => id_handled(
            before,
            args,
            after,
            a,
            "Error, an id was not passed into the tool"@,
            "Error, the id you passed in was not a stringified number."@,
            |id: i32, a: Action| deletes(id, a),
        ),
        Command::EraseDb => after == before && is_request(a, StoreRequest::EraseAll),
        Command::Quit => grew_by(
            before,
            after,
            tool_says("Quitting app, you can leave a final message for the user now."@),
        ) && a is Finish,
        Command::Unknown => grew_by(
            before,
            after,
            tool_says(
                "That tool name didn't exist. Please try again but use the correct tool name"@,
            ),
        ) && a is Advance,
    }
}

/// What the loop does with the outcome of a round trip to the model (after
/// the session has recorded it).
pub open spec fn stepped(
    before: Chat,
    reply: Result<Message, TransportError>,
    after: Chat,
    a: Action,
) -> bool {
    match reply {
        Err(_) => grew_by(
            before,
            after,
            tool_says(
                "Apparently there was an error sending a message to you, let's try whatever you were doing / going to say again"@,
            ),
        ) && a is Advance,
        Ok(m) => handled(before, decoded_command(m), decoded_arguments(m), after, a),
    }
}

/// Reads the `id` argument.
pub fn id_argument(arguments: &Arguments) -> (r: IdArgument)
    ensures
        r == id_argument_of(arguments@),
{
    match arguments.get("id") {
        None => IdArgument::Missing,
        Some(text) => match parse_i32(text.as_str()) {
            None => IdArgument::Malformed,
            Some(id) => IdArgument::Valid(id),
        },
    }
}

/// A chat turn: the texts to show the user are the argument values, in order.
pub fn handle_chat(arguments: &Arguments) -> (r: Vec<String>)
    ensures
        names(r) == arguments@.map_values(|e: (Seq<char>, Seq<char>)| e.1),
{
    let entries = arguments.entries();
    let mut shown: Vec<String> = Vec::new();
    let mut i: usize = 0;
    while i < entries.len()
        invariant
            i <= entries@.len(),
            entries@.map_values(|e: (String, String)| (e.0@, e.1@)) == arguments@,
            shown@.len() == i,
            forall|j: int| 0 <= j < i ==> (#[trigger] shown@[j])@ == entries@[j].1@,
        decreases entries@.len() - i,
    {
        shown.push(entries[i].1.clone());
        i = i + 1;
    }
    assert(names(shown) =~= arguments@.map_values(|e: (Seq<char>, Seq<char>)| e.1));
    shown
}

/// An insert needs a `name`; without one the model is told so.
pub fn handle_insert_task(chat: &mut Chat, arguments: &Arguments) -> (r: Action)
    ensures
        insert_handled(*old(chat), arguments@, *final(chat), r),
{
    match arguments.get("name") {
        None => {
            chat.add_text(
                Role::Tool,
                "Error, name was not passed into the tool correctly, please try again, but this time pass in the new task name",
            );
            Action::Advance
        },
        Some(name) => Action::Store(StoreRequest::Insert { name: name.clone() }),
    }
}

/// A lookup by id needs a numeric `id`.
pub fn handle_get_task_by_id(chat: &mut Chat, arguments: &Arguments) -> (r: Action)
    ensures
        id_handled(
            *old(chat),
            arguments@,
            *final(chat),
            r,
            "Error, the id for the task you want to get was not passed into the tool."@,
            "ERROR: The id you passed in was not a number"@,
            |id: i32, a: Action| gets_by_id(id, a),
        ),
{
    match id_argument(arguments) {
        IdArgument::Missing => {
            chat.add_text(
                Role::Tool,
                "Error, the id for the task you want to get was not passed into the tool.",
            );
            Action::Advance
        },
        IdArgument::Malformed => {
            chat.add_text(Role::Tool, "ERROR: The id you passed in was not a number");
            Action::Advance
        },
        IdArgument::Valid(id) => Action::Store(StoreRequest::GetById { id }),
    }
}

/// An update needs a numeric `id`; `name` and `completed` are optional.
pub fn handle_update_task(chat: &mut Chat, arguments: &Arguments) -> (r: Action)
    ensures
        id_handled(
            *old(chat),
            arguments@,
            *final(chat),
            r,
            "Error, an id was not passed into the update tool"@,
            "The id that you passed into the update tool was not a valid id, please try again but use a valid id."@,
            updates(arguments@),
        ),
{
    match id_argument(arguments) {
        IdArgument::Missing => {
            chat.add_text(Role::Tool, "Error, an id was not passed into the update tool");
            Action::Advance
        },
        IdArgument::Malformed => {
            chat.add_text(
                Role::Tool,
                "The id that you passed into the update tool was not a valid id, please try again but use a valid id.",
            );
            Action::Advance
        },
        IdArgument::Valid(id) => {
            let name = match arguments.get("name") {
                Some(n) => Some(n.clone()),
                None => None,
            };
            let completed = match arguments.get("completed") {
                Some(c) => Some(lowercase(c.as_str()) == String::from_str("true")),
                None => None,
            };
            Action::Store(StoreRequest::Update { id, new_name: name, completed })
        },
    }
}

/// A delete needs a numeric `id`.
pub fn handle_delete_task(chat: &mut Chat, arguments: &Arguments) -> (r: Action)
    ensures
        id_handled(
            *old(chat),
            arguments@,
            *final(chat),
            r,
            "Error, an id was not passed into the tool"@,
            "Error, the id you passed in was not a stringified number."@,
            |id: i32, a: Action| deletes(id, a),
        ),
{
    match id_argument(arguments) {
        IdArgument::Missing => {
            chat.add_text(Role::Tool, "Error, an id was not passed into the tool");
            Action::Advance
        },
        IdArgument::Malformed => {
            chat.add_text(
                Role::Tool,
                "Error, the id you passed in was not a stringified number.",
            );
            Action::Advance
        },
        IdArgument::Valid(id) => Action::Store(StoreRequest::Delete { id }),
    }
}

/// Decides what follows a round trip to the model: a failure is reported to
/// the model and the transcript is sent again; a reply is decoded and its
/// command handled.
pub fn step(chat: &mut Chat, reply: &Result<Message, TransportError>) -> (r: Action)
    ensures
        stepped(*old(chat), *reply, *final(chat), r),
{
    match reply {
        Err(_) => {
            chat.add_text(
                Role::Tool,
                "Apparently there was an error sending a message to you, let's try whatever you were doing / going to say again",
            );
            Action::Advance
        },
        Ok(message) => {
            let (command, arguments) = Command::from_message(message);
            match command {
                Command::Chat => Action::AskUser(handle_chat(&arguments)),
                Command::InsertTaskIntoDb => handle_insert_task(chat, &arguments),
                Command::GetAllTasksFromDb => Action::Store(StoreRequest::GetAll),
                Command::GetTaskByIdFromDb => handle_get_task_by_id(chat, &arguments),
                Command::UpdateTaskInDb => handle_update_task(chat, &arguments),
                Command::DeleteTaskInDb => handle_delete_task(chat, &arguments),
                Command::EraseDb => Action::Store(StoreRequest::EraseAll),
                Command::Quit => {
                    chat.add_text(
                        Role::Tool,
                        "Quitting app, you can leave a final message for the user now.",
                    );
                    Action::Finish
                },
                Command::Unknown => {
                    chat.add_text(
                        Role::Tool,
                        "That tool name didn't exist. Please try again but use the correct tool name",
                    );
                    Action::Advance
                },
            }
        },
    }
}

/// The transcript entry for a line that the user typed, or for the error
/// that reading it gave.
pub open spec fn input_text(line: Result<String, String>) -> Seq<char> {
    match line {
        Ok(l) => "The user said: "@ + l@
            + ". To answer the question use one of the tools to find to appropriate information before responding."@,
        Err(e) => "There was an error getting input from your user: "@ + e@,
    }
}

/// Appends what the user typed, or why nothing could be read.
pub fn record_user_input(chat: &mut Chat, line: &Result<String, String>)
    ensures
        grew_by(*old(chat), *final(chat), tool_says(input_text(*line))),
{
    let text = match line {
        Ok(l) => String::from_str("The user said: ").concat(l.as_str()).concat(
            ". To answer the question use one of the tools to find to appropriate information before responding.",
        ),
        Err(e) => String::from_str("There was an error getting input from your user: ").concat(
            e.as_str(),
        ),
    };
    chat.add_text(Role::Tool, text.as_str());
}

/// Appends one tool entry per task, in the order given.
fn record_tasks(chat: &mut Chat, tasks: &Vec<DbTask>)
    ensures
        grew_by(
            *old(chat),
            *final(chat),
            tasks@.map_values(|t: DbTask| (Role::Tool, task_line(t))),
        ),
{
    let ghost before = *chat;
    let ghost texts = tasks@.map_values(|t: DbTask| (Role::Tool, task_line(t)));
    proof {
        lemma_grew_by_nothing(before);
        assert(texts.take(0) =~= Seq::<(Role, Seq<char>)>::empty());
    }
    let mut i: usize = 0;
    while i < tasks.len()
        invariant
            i <= tasks@.len(),
            texts == tasks@.map_values(|t: DbTask| (Role::Tool, task_line(t))),
            grew_by(before, *chat, texts.take(i as int)),
        decreases tasks@.len() - i,
    {
        let ghost mid = *chat;
        let line = tasks[i].to_string();
        chat.add_text(Role::Tool, line.as_str());
        proof {
            lemma_grew_by_trans(before, mid, *chat, texts.take(i as int), tool_says(line@));
            assert(texts.take(i as int) + tool_says(line@) =~= texts.take(i + 1));
        }
        i = i + 1;
    }
    proof {
        assert(texts.take(tasks@.len() as int) =~= texts);
    }
}

/// Reports what the task store answered to the model as tool entries.
pub fn record_outcome(chat: &mut Chat, outcome: &StoreOutcome)
    ensures
        grew_by(*old(chat), *final(chat), outcome_texts(*outcome)),
{
    let text = match outcome {
        StoreOutcome::AllTasks(Ok(tasks)) => {
            record_tasks(chat, tasks);
            return ;
        },
        StoreOutcome::Inserted(Ok(t)) => String::from_str(
            "The task was created in the database successfully! Here is the full task that was created: ",
        ).concat(t.to_string().as_str()),
        StoreOutcome::Inserted(Err(e)) => String::from_str(
            "There was an error inserting the task into the database: ",
        ).concat(e.as_str()),
        StoreOutcome::AllTasks(Err(e)) => String::from_str(
            "There was an error getting the tasks from the database: ",
        ).concat(e.as_str()),
        StoreOutcome::Found(Ok(Some(t))) => t.to_string(),
        StoreOutcome::Found(Ok(None)) => String::from_str("No task exists with the given id"),
        StoreOutcome::Found(Err(e)) => String::from_str(
            "There was an error getting the task from the database: ",
        ).concat(e.as_str()),
        StoreOutcome::Updated(Ok(Some(t))) => String::from_str(
            "The task has been updated. Here is the updated task: ",
        ).concat(t.to_string().as_str()),
        StoreOutcome::Updated(Ok(None)) => String::from_str(
            "Error: The task with the supplied id was not found, so the task could not be updated",
        ),
        StoreOutcome::Updated(Err(e)) => String::from_str(
            "There was the following error when attempting to update the task in the database: ",
        ).concat(e.as_str()),
        StoreOutcome::Deleted(Ok(n)) => String::from_str("Success, ").concat(
            decimal(*n as i128).as_str(),
        ).concat(" tasks have been deleted from the database"),
        StoreOutcome::Deleted(Err(e)) => String::from_str(
            "Error deleting the task from the database: ",
        ).concat(e.as_str()),
        StoreOutcome::Erased(Ok(n)) => String::from_str("You have erased the database! ").concat(
            decimal(*n as i128).as_str(),
        ).concat(
            " tasks were removed in this purge. You may allow yourself to express remorse or mad scientist vibes for your reply",
        ),
        StoreOutcome::Erased(Err(e)) => String::from_str(
            "There was an error erasing the database! The error was ",
        ).concat(e.as_str()),
    };
    chat.add_text(Role::Tool, text.as_str());
}

/// When the model names no tool that exists, the loop tells it so and sends
/// again: the next request holds more messages than the one that brought the
/// reply, so the loop never waits on a model that has nothing new to read.
pub proof fn lemma_unknown_command_grows_transcript(
    sent: Chat,
    reply: Message,
    recorded_chat: Chat,
    after: Chat,
    a: Action,
)
    requires
        recorded(sent, Ok(reply), recorded_chat),
        stepped(recorded_chat, Ok(reply), after, a),
        decoded_command(reply) == Command::Unknown,
    ensures
        after.messages@.len() > sent.messages@.len(),
        a is Advance,
{
}

/// A tool call whose name is no tool's, in any case, makes no store request:
/// the model is told that the tool does not exist and the transcript is sent again.
pub proof fn lemma_unknown_tool_reported(before: Chat, reply: Message, after: Chat, a: Action)
    requires
        stepped(before, Ok(reply), after, a),
        reply.content@.len() == 0,
        has_tool_call(reply),
        command_for(folded(first_call_name(reply))) == Command::Unknown,
    ensures
        grew_by(
            before,
            after,
            tool_says(
                "That tool name didn't exist. Please try again but use the correct tool name"@,
            ),
        ),
        a is Advance,
{
}

/// An update call without an `id` makes no store request: the model is told
/// that the id is missing and the transcript is sent again.
pub proof fn lemma_update_without_id_reported(before: Chat, reply: Message, after: Chat, a: Action)
    requires
        stepped(before, Ok(reply), after, a),
        reply.content@.len() == 0,
        has_tool_call(reply),
        command_for(folded(first_call_name(reply))) == Command::UpdateTaskInDb,
        lookup(first_call_arguments(reply), "id"@) is None,
    ensures
        grew_by(before, after, tool_says("Error, an id was not passed into the update tool"@)),
        a is Advance,
{
}

/// A name in lower-case ASCII letters and underscores folds to itself.
proof fn lemma_folds_to_itself(s: Seq<char>)
    requires
        forall|i: int| 0 <= i < s.len() ==> ('a' <= #[trigger] s[i] && s[i] <= 'z') || s[i] == '_',
    ensures
        folded(s) == s,
{
    assert(is_ascii_text(s));
    assert(ascii_lower(s) =~= s);
}

/// `nuke_tasks` is the name of no tool.
pub proof fn lemma_nuke_tasks_is_unknown()
    ensures
        command_for(folded("nuke_tasks"@)) == Command::Unknown,
{
    reveal_strlit("nuke_tasks");
    reveal_strlit("insert_task_into_db");
    reveal_strlit("get_all_tasks_from_db");
    reveal_strlit("get_task_by_id_from_db");
    reveal_strlit("update_task_in_db");
    reveal_strlit("delete_task_in_db");
    reveal_strlit("erase_db");
    reveal_strlit("quit");
    reveal_strlit("chat");
    lemma_folds_to_itself("nuke_tasks"@);
}

/// `update_task_in_db` names the update tool.
pub proof fn lemma_update_name_is_update()
    ensures
        command_for(folded("update_task_in_db"@)) == Command::UpdateTaskInDb,
{
    reveal_strlit("update_task_in_db");
    reveal_strlit("insert_task_into_db");
    reveal_strlit("get_all_tasks_from_db");
    reveal_strlit("get_task_by_id_from_db");
    lemma_folds_to_itself("update_task_in_db"@);
}

} // verus!
