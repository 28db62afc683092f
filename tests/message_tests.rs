use meetup_talk_ai_todo::message::{Arguments, Message, Role, ToolCall};

#[test]
fn should_prepend_message_to_content() {
    let mut message = Message::new_tool("world");

    message.prepend_content("hello ");

    assert_eq!(message.content, "hello world");
}

#[test]
fn constructors_set_role_and_text() {
    let m = Message::new_user("hi");
    assert_eq!(m.role, Role::User);
    assert_eq!(m.content, "hi");
    assert!(m.tool_calls.is_none());
    assert_eq!(Message::new_system("s").role, Role::System);
    assert_eq!(Message::new_assistant("a").role, Role::Assistant);
    assert_eq!(Message::new_tool("t").role, Role::Tool);
}

#[test]
fn unknown_role_name_reads_as_user() {
    assert_eq!(Role::from_name("wizard"), Role::User);
    assert_eq!(Role::from_name("assistant"), Role::Assistant);
    assert_eq!(Role::from_name("tool"), Role::Tool);
    assert_eq!(Role::from_name("system"), Role::System);
    assert_eq!(Role::from_name("user"), Role::User);
    assert_eq!(Role::Assistant.name(), "assistant");
    assert_eq!(Role::default(), Role::User);
}

#[test]
fn arguments_insert_overwrites_in_place() {
    let mut args = Arguments::new();
    args.insert("id".to_string(), "1".to_string());
    args.insert("name".to_string(), "a".to_string());
    args.insert("id".to_string(), "2".to_string());
    assert_eq!(args.len(), 2);
    assert_eq!(args.get("id").map(|s| s.as_str()), Some("2"));
    assert_eq!(args.get("name").map(|s| s.as_str()), Some("a"));
    assert_eq!(args.get("missing"), None);
    assert_eq!(args.entries()[0].0, "id");
    assert_eq!(args.entries()[0].1, "2");
    assert_eq!(args.entries()[1].0, "name");
}

#[test]
fn message_clone_keeps_tool_calls() {
    let mut args = Arguments::new();
    args.insert("name".to_string(), "buy milk".to_string());
    let call = ToolCall::new("insert_task_into_db".to_string(), args);
    let m = Message { role: Role::Assistant, content: String::new(), tool_calls: Some(vec![call]) };
    let c = m.clone();
    assert_eq!(c, m);
    assert_eq!(c.to_string(), "");
}
