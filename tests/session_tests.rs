use meetup_talk_ai_todo::chat_request::{Chat, TransportError};
use meetup_talk_ai_todo::logger::{LogGates, LogLevel};
use meetup_talk_ai_todo::message::Message;
use meetup_talk_ai_todo::options::ChatRequestOptions;
use meetup_talk_ai_todo::task::DbTask;
use meetup_talk_ai_todo::tool::{BuildError, Property, PropertyType, Tool};

#[test]
fn should_save_chats_into_history() {
    let mut chat = Chat::new(
        "llama3.2:1b-instruct-fp16",
        Some(ChatRequestOptions::new().save_messages().seed(123)),
    );
    chat.add_message(Message::new_user("Hello"));
    let response = chat.record_reply(Ok(Message::new_assistant("Hi"))).unwrap();
    assert_eq!(chat.messages.len(), 2);
    assert_eq!(response, *chat.messages.last().unwrap());
}

#[test]
fn should_not_save_chats_into_history() {
    let mut chat = Chat::new("llama3.2:1b-instruct-fp16", Some(ChatRequestOptions::new().seed(123)));
    let hello = Message::new_user("Hello");
    chat.add_message(hello.clone());
    let response = chat.record_reply(Ok(Message::new_assistant("Hi"))).unwrap();
    assert_eq!(response.content, "Hi");
    assert_eq!(chat.messages.len(), 1);
}

#[test]
fn failed_round_trip_appends_nothing() {
    let mut chat = Chat::new("m", Some(ChatRequestOptions::new().save_messages()));
    chat.add_message(Message::new_user("Hello"));
    let r = chat.record_reply(Err(TransportError { context: "refused".to_string() }));
    assert_eq!(r, Err(TransportError { context: "refused".to_string() }));
    assert_eq!(chat.messages.len(), 1);
}

#[test]
fn new_session_is_not_streamed() {
    let chat = Chat::new("llama", None);
    assert_eq!(chat.model, "llama");
    assert_eq!(chat.stream, Some(false));
    assert_eq!(chat.raw, Some(false));
    assert!(!chat.saves_messages());
}

#[test]
fn options_builder_sets_fields() {
    let o = ChatRequestOptions::new();
    assert_eq!(o.system, None);
    assert!(!o.save_messages);
    assert_eq!(o.temperature_bits, 0);
    let o = o.system("be brief").seed(9).temperature(0.5f32.to_bits()).save_messages();
    assert_eq!(o.system.as_deref(), Some("be brief"));
    assert_eq!(o.seed, Some(9));
    assert_eq!(f32::from_bits(o.temperature_bits), 0.5);
    assert!(o.save_messages);
}

#[test]
fn build_needs_name_and_description() {
    assert_eq!(Tool::new().function_description("d").build().unwrap_err(), BuildError::MissingName);
    assert_eq!(Tool::new().build().unwrap_err(), BuildError::MissingName);
    assert_eq!(Tool::new().function_name("n").build().unwrap_err(), BuildError::MissingDescription);
    let t = Tool::new().function_name("n").function_description("d").build().unwrap();
    assert_eq!(t.tool_type, "function");
    assert_eq!(t.function.name, "n");
    assert_eq!(t.function.description, "d");
    assert_eq!(t.function.parameters.parameter_type, "object");
    assert_eq!(t.function.parameters.properties.len(), 0);
}

#[test]
fn properties_keep_insertion_order_and_overwrite() {
    let t = Tool::new()
        .function_name("check_weather")
        .function_description("Get the weather")
        .add_function_property("location", Property::new_string("where"))
        .add_function_property("unit", Property::new_string("c or f"))
        .add_function_property("location", Property::new_bool("changed"))
        .add_required_property("location")
        .add_required_property("location")
        .add_required_property("unit")
        .build()
        .unwrap();
    let props = t.function.parameters.properties.entries();
    assert_eq!(props.len(), 2);
    assert_eq!(props[0].0, "location");
    assert_eq!(props[0].1.property_type, PropertyType::Boolean);
    assert_eq!(props[0].1.description, "changed");
    assert_eq!(props[1].0, "unit");
    assert_eq!(t.function.parameters.properties.get("unit").unwrap().description, "c or f");
    assert_eq!(t.function.parameters.required, vec!["location".to_string(), "unit".to_string()]);
    assert_eq!(PropertyType::Boolean.name(), "boolean");
}

#[test]
fn update_with_nothing_new_keeps_the_row() {
    let t = DbTask::new(5, "walk dog", true);
    let same = t.apply_update(None, None);
    assert_eq!(same, t);
    let empty_name = t.apply_update(Some(""), None);
    assert_eq!(empty_name.name, "walk dog");
    let renamed = t.apply_update(Some("feed cat"), Some(false));
    assert_eq!(renamed, DbTask::new(5, "feed cat", false));
    assert_eq!(renamed.apply_update(Some("feed cat"), Some(false)), renamed);
}

#[test]
fn task_reads_as_text() {
    assert_eq!(DbTask::new(7, "buy milk", false).to_string(), "id: 7, name: buy milk, completed: false");
    assert_eq!(DbTask::new(-12, "x", true).to_string(), "id: -12, name: x, completed: true");
}

#[test]
fn normal_level_is_always_shown() {
    let off = LogGates { error: false, info: false, debug: false };
    assert!(LogLevel::Normal.is_shown(off));
    assert!(!LogLevel::Error.is_shown(off));
    let on = LogGates { error: true, info: true, debug: false };
    assert!(LogLevel::Info.is_shown(on));
    assert!(!LogLevel::Debug.is_shown(on));
    assert_eq!(LogLevel::Debug.name(), "Debug");
}
