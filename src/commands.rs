//! The commands that a model reply can carry, and the decoder that reads them.
use vstd::prelude::*;
use crate::message::{Arguments, Message};
use crate::text::{folded, lowercase};

verus! {

/// What a model reply asks for.
#[derive(Debug, Clone, Copy, PartialEq, Eq, Structural)]
pub enum Command {
    InsertTaskIntoDb,
    GetAllTasksFromDb,
    GetTaskByIdFromDb,
    UpdateTaskInDb,
    DeleteTaskInDb,
    EraseDb,
    Chat,
    Quit,
    Unknown,
}

/// The name by which the model calls a command.
pub open spec fn command_name(c: Command) -> Seq<char> {
    match c {
        Command::InsertTaskIntoDb => "insert_task_into_db"@,
        Command::GetAllTasksFromDb => "get_all_tasks_from_db"@,
        Command::GetTaskByIdFromDb => "get_task_by_id_from_db"@,
        Command::UpdateTaskInDb => "update_task_in_db"@,
        Command::DeleteTaskInDb => "delete_task_in_db"@,
        Command::EraseDb => "erase_db"@,
        Command::Chat => "chat"@,
        Command::Quit => "quit"@,
        Command::Unknown => "unknown"@,
    }
}

/// The command that a lower-case name stands for; a name of no tool is `Unknown`.
pub open spec fn command_for(s: Seq<char>) -> Command {
    if s == "insert_task_into_db"@ {
        Command::InsertTaskIntoDb
    } else if s == "get_all_tasks_from_db"@ {
        Command::GetAllTasksFromDb
    } else if s == "get_task_by_id_from_db"@ {
        Command::GetTaskByIdFromDb
    } else if s == "update_task_in_db"@ {
        Command::UpdateTaskInDb
    } else if s == "delete_task_in_db"@ {
        Command::DeleteTaskInDb
    } else if s == "erase_db"@ {
        Command::EraseDb
    } else if s == "quit"@ {
        Command::Quit
    } else if s == "chat"@ {
        Command::Chat
    } else {
        Command::Unknown
    }
}

/// The reply carries at least one tool call.
pub open spec fn has_tool_call(m: Message) -> bool {
    match m.tool_calls {
        Some(calls) => calls@.len() > 0,
        None => false,
    }
}

/// The name of the first tool call of a reply that carries one.
pub open spec fn first_call_name(m: Message) -> Seq<char>
    recommends
        has_tool_call(m),
{
    m.tool_calls.unwrap()@[0].function.name@
}

/// The arguments of the first tool call of a reply that carries one.
pub open spec fn first_call_arguments(m: Message) -> Seq<(Seq<char>, Seq<char>)>
    recommends
        has_tool_call(m),
{
    m.tool_calls.unwrap()@[0].function.arguments@
}

/// The command that a reply decodes to: prose wins over a tool call; the
/// first tool call is looked up by its name without regard to case; a reply
/// with neither is a chat.
pub open spec fn decoded_command(m: Message) -> Command {
    if m.content@.len() > 0 {
        Command::Chat
    } else if has_tool_call(m) {
        command_for(folded(first_call_name(m)))
    } else {
        Command::Chat
    }
}

/// The arguments that a reply decodes to: the prose under `message`, the
/// first tool call's arguments as they came, or none.
pub open spec fn decoded_arguments(m: Message) -> Seq<(Seq<char>, Seq<char>)> {
    if m.content@.len() > 0 {
        seq![("message"@, m.content@)]
    } else if has_tool_call(m) {
        first_call_arguments(m)
    } else {
        Seq::empty()
    }
}

impl Command {
    /// The name by which the model calls the command.
    pub fn name(&self) -> (r: &'static str)
        ensures
            r@ == command_name(*self),
    {
        match self {
            Command::InsertTaskIntoDb => "insert_task_into_db",
            Command::GetAllTasksFromDb => "get_all_tasks_from_db",
            Command::GetTaskByIdFromDb => "get_task_by_id_from_db",
            Command::UpdateTaskInDb => "update_task_in_db",
            Command::DeleteTaskInDb => "delete_task_in_db",
            Command::EraseDb => "erase_db",
            Command::Chat => "chat",
            Command::Quit => "quit",
            Command::Unknown => "unknown",
        }
    }

    pub fn to_string(&self) -> (r: String)
        ensures
            r@ == command_name(*self),
    {
        String::from_str(self.name())
    }

    /// Looks up a name that is already in lower case.
    pub fn from_lowered(s: &str) -> (r: Command)
        ensures
            r == command_for(s@),
    {
        let s = String::from_str(s);
        if s == String::from_str("insert_task_into_db") {
            Command::InsertTaskIntoDb
        } else if s == String::from_str("get_all_tasks_from_db") {
            Command::GetAllTasksFromDb
        } else if s == String::from_str("get_task_by_id_from_db") {
            Command::GetTaskByIdFromDb
        } else if s == String::from_str("update_task_in_db") {
            Command::UpdateTaskInDb
        } else if s == String::from_str("delete_task_in_db") {
            Command::DeleteTaskInDb
        } else if s == String::from_str("erase_db") {
            Command::EraseDb
        } else if s == String::from_str("quit") {
            Command::Quit
        } else if s == String::from_str("chat") {
            Command::Chat
        } else {
            Command::Unknown
        }
    }

    /// Looks up a name without regard to case.
    pub fn from_name(s: &str) -> (r: Command)
        ensures
            r == command_for(folded(s@)),
    {
        let lowered = lowercase(s);
        Command::from_lowered(lowered.as_str())
    }

    /// Decodes a model reply into a command and its arguments.
    pub fn from_message(message: &Message) -> (r: (Command, Arguments))
        ensures
            r.0 == decoded_command(*message),
            r.1@ == decoded_arguments(*message),
    {
        if message.content.as_str().is_empty() {
            match &message.tool_calls {
                None => (Command::Chat, Arguments::new()),
                Some(calls) => {
                    if calls.len() == 0 {
                        (Command::Chat, Arguments::new())
                    } else {
                        let function = &calls[0].function;
                        let command = Command::from_name(function.name.as_str());
                        (command, function.arguments.clone())
                    }
                },
            }
        } else {
            let mut arguments = Arguments::new();
            arguments.insert(String::from_str("message"), message.content.clone());
            proof {
                crate::message::lemma_single_entry(arguments@, "message"@, message.content@);
            }
            (Command::Chat, arguments)
        }
    }
}

/// Decoding is total: every message gives exactly one command and one list
/// of arguments, and which of the three readings applies is fixed by the
/// message alone.
pub proof fn lemma_decode_total(m: Message)
    ensures
        m.content@.len() > 0 ==> decoded_command(m) == Command::Chat && decoded_arguments(m)
            == seq![("message"@, m.content@)],
        m.content@.len() == 0 && has_tool_call(m) ==> decoded_command(m) == command_for(
            folded(first_call_name(m)),
        ) && decoded_arguments(m) == first_call_arguments(m),
        m.content@.len() == 0 && !has_tool_call(m) ==> decoded_command(m) == Command::Chat
            && decoded_arguments(m) == Seq::<(Seq<char>, Seq<char>)>::empty(),
{
}

} // verus!
