use meetup_talk_ai_todo::ai::{create_assistant_chat, open_session};
use meetup_talk_ai_todo::chat_request::{Chat, TransportError};
use meetup_talk_ai_todo::dispatch::{
    id_argument, record_outcome, record_user_input, step, Action, IdArgument, StoreOutcome,
    StoreRequest,
};
use meetup_talk_ai_todo::message::{Arguments, Message, Role, ToolCall};
use meetup_talk_ai_todo::options::ChatRequestOptions;
use meetup_talk_ai_todo::task::DbTask;
use meetup_talk_ai_todo::tool::PropertyType;

fn session() -> Chat {
    Chat::new("model", Some(ChatRequestOptions::new().save_messages()))
}

fn call(name: &str, pairs: &[(&str, &str)]) -> Message {
    let mut args = Arguments::new();
    for (k, v) in pairs {
        args.insert(k.to_string(), v.to_string());
    }
    Message {
        role: Role::Assistant,
        content: String::new(),
        tool_calls: Some(vec![ToolCall::new(name.to_string(), args)]),
    }
}

/// Records the reply as the session would after a round trip, then decides.
fn advance_with(chat: &mut Chat, reply: Message) -> Action {
    let reply = chat.record_reply(Ok(reply));
    step(chat, &reply)
}

fn last(chat: &Chat) -> &Message {
    chat.messages.last().unwrap()
}

#[test]
fn plain_chat_asks_the_user() {
    let mut chat = session();
    let action = advance_with(&mut chat, Message::new_assistant("Hi!"));
    assert_eq!(action, Action::AskUser(vec!["Hi!".to_string()]));
    assert_eq!(chat.messages.len(), 1);
    assert_eq!(last(&chat).role, Role::Assistant);
}

#[test]
fn insert_via_tool_call_reports_the_new_row() {
    let mut chat = session();
    let action = advance_with(&mut chat, call("insert_task_into_db", &[("name", "buy milk")]));
    assert_eq!(action, Action::Store(StoreRequest::Insert { name: "buy milk".to_string() }));
    assert_eq!(chat.messages.len(), 1);
    record_outcome(&mut chat, &StoreOutcome::Inserted(Ok(DbTask::new(7, "buy milk", false))));
    assert_eq!(chat.messages.len(), 2);
    assert_eq!(last(&chat).role, Role::Tool);
    assert!(last(&chat).content.contains("id: 7, name: buy milk, completed: false"));
}

#[test]
fn insert_without_name_is_reported() {
    let mut chat = session();
    let action = advance_with(&mut chat, call("insert_task_into_db", &[]));
    assert_eq!(action, Action::Advance);
    assert_eq!(chat.messages.len(), 2);
    assert!(last(&chat).content.starts_with("Error, name was not passed"));
}

#[test]
fn update_without_id_makes_no_store_call() {
    let mut chat = session();
    let action = advance_with(&mut chat, call("update_task_in_db", &[]));
    assert_eq!(action, Action::Advance);
    assert_eq!(chat.messages.len(), 2);
    assert_eq!(last(&chat).role, Role::Tool);
    assert_eq!(last(&chat).content, "Error, an id was not passed into the update tool");
}

#[test]
fn malformed_id_makes_no_store_call() {
    let mut chat = session();
    let action = advance_with(&mut chat, call("get_task_by_id_from_db", &[("id", "seven")]));
    assert_eq!(action, Action::Advance);
    assert_eq!(last(&chat).role, Role::Tool);
    assert_eq!(last(&chat).content, "ERROR: The id you passed in was not a number");
}

#[test]
fn unknown_tool_name_is_reported_and_the_loop_goes_on() {
    let mut chat = session();
    let before = chat.messages.len();
    let action = advance_with(&mut chat, call("nuke_tasks", &[]));
    assert_eq!(action, Action::Advance);
    assert!(chat.messages.len() > before);
    assert_eq!(last(&chat).role, Role::Tool);
    assert!(last(&chat).content.starts_with("That tool name didn't exist"));
}

#[test]
fn unknown_tool_grows_transcript_without_saving_replies() {
    let mut chat = Chat::new("model", None);
    let before = chat.messages.len();
    let action = advance_with(&mut chat, call("nuke_tasks", &[]));
    assert_eq!(action, Action::Advance);
    assert_eq!(chat.messages.len(), before + 1);
}

#[test]
fn quit_appends_farewell_and_finishes() {
    let mut chat = session();
    let action = advance_with(&mut chat, call("quit", &[]));
    assert_eq!(action, Action::Finish);
    assert_eq!(chat.messages.len(), 2);
    assert_eq!(last(&chat).content, "Quitting app, you can leave a final message for the user now.");
    let last_reply = chat.record_reply(Ok(Message::new_assistant("Bye!"))).unwrap();
    assert_eq!(last_reply.content, "Bye!");
    assert_eq!(chat.messages.len(), 3);
}

#[test]
fn transport_error_is_reported_to_the_model() {
    let mut chat = session();
    let reply = chat.record_reply(Err(TransportError { context: "timeout".to_string() }));
    assert!(reply.is_err());
    assert_eq!(chat.messages.len(), 0);
    let action = step(&mut chat, &reply);
    assert_eq!(action, Action::Advance);
    assert_eq!(chat.messages.len(), 1);
    assert_eq!(last(&chat).role, Role::Tool);
    assert!(last(&chat).content.starts_with("Apparently there was an error"));
}

#[test]
fn update_reads_optional_fields() {
    let mut chat = session();
    let action = advance_with(
        &mut chat,
        call("update_task_in_db", &[("id", "3"), ("name", "walk dog"), ("completed", "TRUE")]),
    );
    assert_eq!(
        action,
        Action::Store(StoreRequest::Update {
            id: 3,
            new_name: Some("walk dog".to_string()),
            completed: Some(true),
        })
    );
    let action = advance_with(&mut chat, call("update_task_in_db", &[("id", "3"), ("completed", "yes")]));
    assert_eq!(action, Action::Store(StoreRequest::Update { id: 3, new_name: None, completed: Some(false) }));
    let action = advance_with(&mut chat, call("update_task_in_db", &[("id", "x")]));
    assert_eq!(action, Action::Advance);
    assert!(last(&chat).content.starts_with("The id that you passed into the update tool was not a valid id"));
}

#[test]
fn delete_get_all_and_erase_become_store_requests() {
    let mut chat = session();
    assert_eq!(
        advance_with(&mut chat, call("delete_task_in_db", &[("id", "-4")])),
        Action::Store(StoreRequest::Delete { id: -4 })
    );
    assert_eq!(advance_with(&mut chat, call("get_all_tasks_from_db", &[])), Action::Store(StoreRequest::GetAll));
    assert_eq!(advance_with(&mut chat, call("erase_db", &[])), Action::Store(StoreRequest::EraseAll));
    assert_eq!(advance_with(&mut chat, call("delete_task_in_db", &[])), Action::Advance);
    assert_eq!(last(&chat).content, "Error, an id was not passed into the tool");
    assert_eq!(advance_with(&mut chat, call("delete_task_in_db", &[("id", "1.5")])), Action::Advance);
    assert_eq!(last(&chat).content, "Error, the id you passed in was not a stringified number.");
    assert_eq!(advance_with(&mut chat, call("get_task_by_id_from_db", &[])), Action::Advance);
    assert!(last(&chat).content.starts_with("Error, the id for the task you want to get"));
}

#[test]
fn id_argument_follows_integer_parsing() {
    let read = |v: &str| {
        let mut a = Arguments::new();
        a.insert("id".to_string(), v.to_string());
        id_argument(&a)
    };
    assert_eq!(read("7"), IdArgument::Valid(7));
    assert_eq!(read("+5"), IdArgument::Valid(5));
    assert_eq!(read("-2147483648"), IdArgument::Valid(i32::MIN));
    assert_eq!(read("2147483648"), IdArgument::Malformed);
    assert_eq!(read(""), IdArgument::Malformed);
    assert_eq!(read("-"), IdArgument::Malformed);
    assert_eq!(read(" 7"), IdArgument::Malformed);
    assert_eq!(id_argument(&Arguments::new()), IdArgument::Missing);
}

#[test]
fn get_all_reports_one_entry_per_row_in_order() {
    let mut chat = session();
    let rows = vec![DbTask::new(1, "a", false), DbTask::new(2, "b", true)];
    record_outcome(&mut chat, &StoreOutcome::AllTasks(Ok(rows)));
    assert_eq!(chat.messages.len(), 2);
    assert_eq!(chat.messages[0].content, "id: 1, name: a, completed: false");
    assert_eq!(chat.messages[1].content, "id: 2, name: b, completed: true");
    record_outcome(&mut chat, &StoreOutcome::AllTasks(Ok(vec![])));
    assert_eq!(chat.messages.len(), 2);
}

#[test]
fn store_outcomes_become_tool_messages() {
    let mut chat = session();
    let cases: Vec<(StoreOutcome, &str)> = vec![
        (StoreOutcome::Found(Ok(Some(DbTask::new(-3, "x", true)))), "id: -3, name: x, completed: true"),
        (StoreOutcome::Found(Ok(None)), "No task exists with the given id"),
        (StoreOutcome::Updated(Ok(None)), "Error: The task with the supplied id was not found, so the task could not be updated"),
        (StoreOutcome::Updated(Ok(Some(DbTask::new(3, "y", false)))), "The task has been updated. Here is the updated task: id: 3, name: y, completed: false"),
        (StoreOutcome::Deleted(Ok(2)), "Success, 2 tasks have been deleted from the database"),
        (StoreOutcome::Deleted(Err("gone".to_string())), "Error deleting the task from the database: gone"),
        (StoreOutcome::Erased(Err("down".to_string())), "There was an error erasing the database! The error was down"),
        (StoreOutcome::Inserted(Err("full".to_string())), "There was an error inserting the task into the database: full"),
        (StoreOutcome::AllTasks(Err("e".to_string())), "There was an error getting the tasks from the database: e"),
        (StoreOutcome::Found(Err("f".to_string())), "There was an error getting the task from the database: f"),
        (StoreOutcome::Updated(Err("u".to_string())), "There was the following error when attempting to update the task in the database: u"),
    ];
    for (outcome, text) in cases {
        let before = chat.messages.len();
        record_outcome(&mut chat, &outcome);
        assert_eq!(chat.messages.len(), before + 1);
        assert_eq!(last(&chat).role, Role::Tool);
        assert_eq!(last(&chat).content, text);
    }
    record_outcome(&mut chat, &StoreOutcome::Erased(Ok(12)));
    assert!(last(&chat).content.starts_with("You have erased the database! 12 tasks were removed"));
}

#[test]
fn user_input_is_wrapped_for_the_model() {
    let mut chat = session();
    record_user_input(&mut chat, &Ok("add milk".to_string()));
    assert!(last(&chat).content.starts_with("The user said: add milk. "));
    assert_eq!(last(&chat).role, Role::Tool);
    record_user_input(&mut chat, &Err("closed".to_string()));
    assert_eq!(last(&chat).content, "There was an error getting input from your user: closed");
}

#[test]
fn assistant_session_has_catalogue_and_greeting() {
    let mut chat = create_assistant_chat();
    assert_eq!(chat.tools.len(), 8);
    let names: Vec<&str> = chat.tools.iter().map(|t| t.function.name.as_str()).collect();
    assert_eq!(
        names,
        vec![
            "insert_task_into_db",
            "chat",
            "get_all_tasks_from_db",
            "get_task_by_id_from_db",
            "update_task_in_db",
            "delete_task_in_db",
            "erase_db",
            "quit",
        ]
    );
    assert_eq!(chat.tools[4].function.parameters.properties.len(), 3);
    assert_eq!(chat.tools[4].function.parameters.required, vec!["id".to_string()]);
    let update = chat.tools[4].function.parameters.properties.entries();
    assert_eq!(update[0].0, "id");
    assert_eq!(update[1].0, "name");
    assert_eq!(update[2].0, "completed");
    assert_eq!(update[2].1.property_type, PropertyType::Boolean);
    for t in &chat.tools {
        assert_eq!(t.tool_type, "function");
        assert_eq!(t.function.parameters.parameter_type, "object");
    }
    assert_eq!(chat.stream, Some(false));
    assert_eq!(chat.raw, Some(false));
    assert!(chat.saves_messages());
    open_session(&mut chat);
    assert_eq!(chat.messages.len(), 2);
    assert_eq!(chat.messages[0].role, Role::System);
    assert_eq!(chat.messages[1].role, Role::User);
}
