use meetup_talk_ai_todo::chat_request::Chat;
use meetup_talk_ai_todo::message::{Arguments, Message, Role, ToolCall};
use meetup_talk_ai_todo::options::ChatRequestOptions;
use meetup_talk_ai_todo::tool::{Property, PropertyType, Tool};
use meetup_talk_ai_todo::wire::chars_of;

fn weather_tool() -> Tool {
    Tool::new()
        .function_name("check_weather")
        .function_description("Get the weather in \"degrees\"\nfor a \\ location")
        .add_function_property("location", Property::new_string("city, state"))
        .add_function_property("metric", Property::new_bool("use celsius\t"))
        .add_required_property("location")
        .build()
        .unwrap()
}

#[test]
fn tool_json_matches_the_schema() {
    let t = Tool::new()
        .function_name("quit")
        .function_description("Quit")
        .add_function_property("id", Property::new_string("The id"))
        .add_required_property("id")
        .build()
        .unwrap();
    assert_eq!(
        t.to_json(),
        "{\"type\":\"function\",\"function\":{\"name\":\"quit\",\"description\":\"Quit\",\"parameters\":{\"type\":\"object\",\"properties\":{\"id\":{\"type\":\"string\",\"description\":\"The id\"}},\"required\":[\"id\"]}}}"
    );
}

#[test]
fn tool_json_escapes_text() {
    let json = weather_tool().to_json();
    assert!(json.contains("\\\"degrees\\\"\\u000afor a \\\\ location"));
    assert!(json.contains("use celsius\\u0009"));
    assert!(json.contains("\"metric\":{\"type\":\"boolean\""));
}

#[test]
fn tool_json_round_trip_keeps_order() {
    let t = weather_tool();
    let back = Tool::from_json(&t.to_json()).unwrap();
    assert_eq!(back, t);
    let props = back.function.parameters.properties.entries();
    assert_eq!(props[0].0, "location");
    assert_eq!(props[1].0, "metric");
    assert_eq!(props[1].1.property_type, PropertyType::Boolean);

    let empty = Tool::new().function_name("erase_db").function_description("").build().unwrap();
    assert_eq!(Tool::from_json(&empty.to_json()).unwrap(), empty);
}

#[test]
fn tool_json_refuses_other_text() {
    let json = weather_tool().to_json();
    assert!(Tool::from_json(&format!("{json} ")).is_none());
    assert!(Tool::from_json(&json[..json.len() - 1]).is_none());
    assert!(Tool::from_json("").is_none());
    assert!(Tool::from_json(&json.replace("boolean", "number")).is_none());
}

#[test]
fn chars_of_splits_characters() {
    assert_eq!(chars_of("hé!"), vec!['h', 'é', '!']);
}

#[test]
fn request_body_holds_session() {

    let mut chat = Chat::new("llama", Some(ChatRequestOptions::new().system("be \"kind\"").seed(123)));
    chat.add_message(Message::new_user("Hello"));
    let mut args = Arguments::new();
    args.insert("id".to_string(), "7".to_string());
    chat.add_message(Message {
        role: Role::Assistant,
        content: String::new(),
        tool_calls: Some(vec![ToolCall::new("delete_task_in_db".to_string(), args)]),
    });
    assert_eq!(
        chat.to_json("0.7"),
        "{\"model\":\"llama\",\"messages\":[{\"role\":\"user\",\"content\":\"Hello\"},{\"role\":\"assistant\",\"content\":\"\",\"tool_calls\":[{\"function\":{\"name\":\"delete_task_in_db\",\"arguments\":{\"id\":\"7\"}}}]}],\"stream\":false,\"raw\":false,\"tools\":[],\"options\":{\"system\":\"be \\\"kind\\\"\",\"seed\":123,\"temperature\":0.7}}"
    );
    let bare = Chat::new("m", None);
    assert_eq!(
        bare.to_json("0"),
        "{\"model\":\"m\",\"messages\":[],\"stream\":false,\"raw\":false,\"tools\":[],\"options\":null}"
    );
}

#[test]
fn request_body_lists_tools() {
    let mut chat = Chat::new("m", None);
    let t = Tool::new().function_name("quit").function_description("Quit").build().unwrap();
    let text = t.to_json();
    chat.add_tool(t);
    chat.add_tool(Tool::new().function_name("chat").function_description("Talk").build().unwrap());
    let body = chat.to_json("0");
    assert!(body.contains(&format!("\"tools\":[{text},{{\"type\":\"function\"")));
}
