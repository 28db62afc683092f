use meetup_talk_ai_todo::commands::Command;
use meetup_talk_ai_todo::message::{Arguments, Message, Role, ToolCall};

fn reply_with_call(content: &str, name: &str, pairs: &[(&str, &str)]) -> Message {
    let mut args = Arguments::new();
    for (k, v) in pairs {
        args.insert(k.to_string(), v.to_string());
    }
    Message {
        role: Role::Assistant,
        content: content.to_string(),
        tool_calls: Some(vec![ToolCall::new(name.to_string(), args)]),
    }
}

#[test]
fn plain_chat_decodes_to_chat_with_message() {
    let reply = Message::new_assistant("Hi!");
    let (command, args) = Command::from_message(&reply);
    assert_eq!(command, Command::Chat);
    assert_eq!(args.len(), 1);
    assert_eq!(args.get("message").map(|s| s.as_str()), Some("Hi!"));
}

#[test]
fn tool_call_decodes_to_its_command_and_arguments() {
    let reply = reply_with_call("", "insert_task_into_db", &[("name", "buy milk")]);
    let (command, args) = Command::from_message(&reply);
    assert_eq!(command, Command::InsertTaskIntoDb);
    assert_eq!(args.get("name").map(|s| s.as_str()), Some("buy milk"));
}

#[test]
fn content_wins_over_tool_call() {
    let reply = reply_with_call("thinking...", "quit", &[]);
    let (command, args) = Command::from_message(&reply);
    assert_eq!(command, Command::Chat);
    assert_eq!(args.get("message").map(|s| s.as_str()), Some("thinking..."));
}

#[test]
fn empty_reply_is_chat_without_arguments() {
    let reply = Message::new_assistant("");
    let (command, args) = Command::from_message(&reply);
    assert_eq!(command, Command::Chat);
    assert_eq!(args.len(), 0);

    let empty_calls = Message { role: Role::Assistant, content: String::new(), tool_calls: Some(vec![]) };
    let (command, args) = Command::from_message(&empty_calls);
    assert_eq!(command, Command::Chat);
    assert_eq!(args.len(), 0);
}

#[test]
fn tool_names_are_matched_without_case() {
    assert_eq!(Command::from_name("QUIT"), Command::Quit);
    assert_eq!(Command::from_name("Erase_DB"), Command::EraseDb);
    assert_eq!(Command::from_name("nuke_tasks"), Command::Unknown);
    assert_eq!(Command::from_lowered("QUIT"), Command::Unknown);
    let reply = reply_with_call("", "Get_Task_By_Id_From_Db", &[("id", "3")]);
    assert_eq!(Command::from_message(&reply).0, Command::GetTaskByIdFromDb);
}

#[test]
fn command_names_are_snake_case() {
    let all = [
        Command::InsertTaskIntoDb,
        Command::GetAllTasksFromDb,
        Command::GetTaskByIdFromDb,
        Command::UpdateTaskInDb,
        Command::DeleteTaskInDb,
        Command::EraseDb,
        Command::Chat,
        Command::Quit,
        Command::Unknown,
    ];
    assert_eq!(Command::UpdateTaskInDb.to_string(), "update_task_in_db");
    for c in all {
        assert_eq!(Command::from_lowered(c.name()), c);
    }
}
