//! The assistant's session: the model, its options, the tool catalogue and
//! the opening of the transcript.
use vstd::prelude::*;
use crate::chat_request::{grew_by, saves, Chat};
use crate::commands::{command_name, Command};
use crate::message::Role;
use crate::options::ChatRequestOptions;
use crate::message::lemma_position_absent;
use crate::tool::{names, Property, PropertyType, Tool};
use crate::tool_property::{property_name, ToolProperty};

verus! {

/// The model that the assistant runs on.
pub const MODEL_NAME: &'static str = "qwen2.5-coder:32b-instruct-q8_0";

/// The bits of the single-precision temperature 0.7.
pub const TEMPERATURE_BITS: u32 = 0x3F33_3333;

/// The names of the tools in a catalogue, in order.
pub open spec fn tool_names(tools: Seq<Tool>) -> Seq<Seq<char>> {
    tools.map_values(|t: Tool| t.function.name@)
}

/// The required argument names of the tools in a catalogue, in order.
pub open spec fn tool_required(tools: Seq<Tool>) -> Seq<Seq<Seq<char>>> {
    tools.map_values(|t: Tool| names(t.function.parameters.required))
}

/// The commands that the catalogue offers, in the order the model is told of them.
pub open spec fn catalogue() -> Seq<Command> {
    seq![
        Command::InsertTaskIntoDb,
        Command::Chat,
        Command::GetAllTasksFromDb,
        Command::GetTaskByIdFromDb,
        Command::UpdateTaskInDb,
        Command::DeleteTaskInDb,
        Command::EraseDb,
        Command::Quit,
    ]
}

/// The required arguments of each tool of the catalogue.
pub open spec fn catalogue_required() -> Seq<Seq<Seq<char>>> {
    let none = Seq::<Seq<char>>::empty();
    seq![
        seq![property_name(ToolProperty::Name)],
        seq![property_name(ToolProperty::Message)],
        none,
        seq![property_name(ToolProperty::Id)],
        seq![property_name(ToolProperty::Id)],
        seq![property_name(ToolProperty::Id)],
        none,
        none,
    ]
}

/// The declared arguments of a tool: each name with its type, in order.
pub open spec fn declared(t: Tool) -> Seq<(Seq<char>, PropertyType)> {
    t.function.parameters.properties@.map_values(
        |e: (Seq<char>, (PropertyType, Seq<char>))| (e.0, e.1.0),
    )
}

/// The declared arguments of the tools in a catalogue, in order.
pub open spec fn tool_declared(tools: Seq<Tool>) -> Seq<Seq<(Seq<char>, PropertyType)>> {
    tools.map_values(|t: Tool| declared(t))
}

/// The tool is tagged as a function whose parameters form an object.
pub open spec fn is_function_tool(t: Tool) -> bool {
    t.tool_type@ == "function"@ && t.function.parameters.parameter_type@ == "object"@
}

/// The declared arguments of each tool of the catalogue.
pub open spec fn catalogue_properties() -> Seq<Seq<(Seq<char>, PropertyType)>> {
    let none = Seq::<(Seq<char>, PropertyType)>::empty();
    let id = (property_name(ToolProperty::Id), PropertyType::String);
    seq![
        seq![(property_name(ToolProperty::Name), PropertyType::String)],
        seq![(property_name(ToolProperty::Message), PropertyType::String)],
        none,
        seq![id],
        seq![
            id,
            (property_name(ToolProperty::Name), PropertyType::String),
            (property_name(ToolProperty::Completed), PropertyType::Boolean),
        ],
        seq![id],
        none,
        none,
    ]
}

/// A tool for `command` that declares and requires `property`, if given.
fn tool_for(command: Command, description: &str, property: Option<(ToolProperty, Property)>) -> (r:
    Tool)
    ensures
        r.function.name@ == command_name(command),
        is_function_tool(r),
        names(r.function.parameters.required) == match property {
            Some((p, _)) => seq![property_name(p)],
            None => Seq::<Seq<char>>::empty(),
        },
        declared(r) == match property {
            Some((p, spec)) => seq![(property_name(p), spec.property_type)],
            None => Seq::<(Seq<char>, PropertyType)>::empty(),
        },
{
    let b = Tool::new().function_name(command.name()).function_description(description);
    let b = match property {
        Some((p, spec)) => {
            let ghost pv = (spec.property_type, spec.description@);
            let ghost before = b.properties@;
            let b = b.add_function_property(p.name(), spec);
            let b = b.add_required_property(p.name());
            proof {
                assert(!Seq::<Seq<char>>::empty().contains(property_name(p)));
                assert(Seq::<Seq<char>>::empty().push(property_name(p)) =~= seq![property_name(p)]);
                assert(names(b.required_properties) =~= seq![property_name(p)]);
                lemma_position_absent(before, property_name(p));
                assert(b.properties@ =~= seq![(property_name(p), pv)]);
            }
            b
        },
        None => b,
    };
    proof {
        assert(b.required_properties@.len() == 0 ==> names(b.required_properties)
            =~= Seq::<Seq<char>>::empty());
    }
    let r = b.build().unwrap();
    proof {
        assert(declared(r) =~= match property {
            Some((p, spec)) => seq![(property_name(p), spec.property_type)],
            None => Seq::<(Seq<char>, PropertyType)>::empty(),
        });
    }
    r
}

/// The assistant's session: the model, a system prompt, replies kept in the
/// transcript, and one tool for each command, in catalogue order.
pub fn create_assistant_chat() -> (r: Chat)
    ensures
        r.model@ == MODEL_NAME@,
        r.messages@.len() == 0,
        saves(r),
        r.options is Some && r.options.unwrap().system is Some,
        r.options.unwrap().temperature_bits == TEMPERATURE_BITS,
        tool_names(r.tools@) == catalogue().map_values(|c: Command| command_name(c)),
        tool_required(r.tools@) == catalogue_required(),
        tool_declared(r.tools@) == catalogue_properties(),
        forall|i: int| 0 <= i < r.tools@.len() ==> is_function_tool(#[trigger] r.tools@[i]),
        r.stream == Some(false),
        r.raw == Some(false),
{
    let options = ChatRequestOptions::new().system(
        "Act as a personal assistant who is managing my todo list for me. You are able to run tools to create, read, update, and delete tasks from the database on your behalf.",
    ).save_messages().temperature(TEMPERATURE_BITS);
    let mut assistant = Chat::new(MODEL_NAME, Some(options));

    assistant.add_tool(
        tool_for(
            Command::InsertTaskIntoDb,
            "Insert a new task into the Database.",
            Some(
                (
                    ToolProperty::Name,
                    Property::new_string(
                        "The name / description of the task to insert into the database. For example \"Pet Xilbe.\"",
                    ),
                ),
            ),
        ),
    );
    assistant.add_tool(
        tool_for(
            Command::Chat,
            "Send a message to {user}. After printing the message to the user the user will be able to respond.",
            Some((ToolProperty::Message, Property::new_string("The message to send to the user."))),
        ),
    );
    assistant.add_tool(
        tool_for(
            Command::GetAllTasksFromDb,
            "Retrieve all of the tasks from the database",
            None,
        ),
    );
    assistant.add_tool(
        tool_for(
            Command::GetTaskByIdFromDb,
            "Get a single task from the database, given it's id. You may need to previously call get all tasks in order to learn the correct id.",
            Some(
                (
                    ToolProperty::Id,
                    Property::new_string(
                        "The id of the task in the database. Make sure to stringify this id.",
                    ),
                ),
            ),
        ),
    );
    let update = Tool::new().function_name(Command::UpdateTaskInDb.name()).function_description(
        "Update a task in the database. We can set the task as completed and/or change the task name. We have to have the id of the task to update it.",
    );
    let ghost p0 = update.properties@;
    let update = update.add_function_property(
        ToolProperty::Id.name(),
        Property::new_string("The id of the task in the database."),
    );
    let ghost p1 = update.properties@;
    let update = update.add_function_property(
        ToolProperty::Name.name(),
        Property::new_string("A new name/description to set the task to."),
    );
    let ghost p2 = update.properties@;
    let update = update.add_function_property(
        ToolProperty::Completed.name(),
        Property::new_bool(
            "A boolean for if the task is completed or not. True if completed. False if not completed.",
        ),
    );
    proof {
        reveal_strlit("id");
        reveal_strlit("name");
        reveal_strlit("completed");
        let id = property_name(ToolProperty::Id);
        let name = property_name(ToolProperty::Name);
        let done = property_name(ToolProperty::Completed);
        assert(id.len() == 2 && name.len() == 4 && done.len() == 9);
        lemma_position_absent(p0, id);
        lemma_position_absent(p1, name);
        assert(p2.len() == 2 && p2[0].0 == id && p2[1].0 == name);
        lemma_position_absent(p2, done);
        assert(names(update.required_properties) =~= Seq::<Seq<char>>::empty());
        assert(Seq::<Seq<char>>::empty().push(id) =~= seq![id]);
    }
    let update = update.add_required_property(ToolProperty::Id.name()).build().unwrap();
    proof {
        assert(declared(update) =~= catalogue_properties()[4]);
    }
    assistant.add_tool(update);
    assistant.add_tool(
        tool_for(
            Command::DeleteTaskInDb,
            "Permanently delete a task in the database, there is no recovery for this.",
            Some(
                (
                    ToolProperty::Id,
                    Property::new_string("The id of the task in the database."),
                ),
            ),
        ),
    );
    assistant.add_tool(
        tool_for(
            Command::EraseDb,
            "Call this function when you are upset, or just done with tasks. This will permanently delete all tasks in the database. Make sure to laugh manically after calling this tool.",
            None,
        ),
    );
    assistant.add_tool(
        tool_for(
            Command::Quit,
            "Quit the application. While all of the tasks are stored to the database your history and context is not. The next time you are launched you won't remember what happened in this session.",
            None,
        ),
    );
    proof {
        assert(tool_names(assistant.tools@) =~= catalogue().map_values(
            |c: Command| command_name(c),
        ));
        assert(tool_required(assistant.tools@) =~= catalogue_required());
        assert(tool_declared(assistant.tools@) =~= catalogue_properties());
    }
    assistant
}

/// Opens the conversation: the standing instructions, then a prompt that
/// has the model greet the user.
pub fn open_session(chat: &mut Chat)
    ensures
        grew_by(
            *old(chat),
            *final(chat),
            seq![
                (Role::System, "You are an AI Todo Application. You can CRUD (Create, Read, Update, and Delete) tasks in the database. You are super professional while replying to the user."@),
                (Role::User, "User has logged into the system, feel free to ask what their name is then introduce them to yourself and your features."@),
            ],
        ),
{
    let ghost before = *chat;
    chat.add_text(
        Role::System,
        "You are an AI Todo Application. You can CRUD (Create, Read, Update, and Delete) tasks in the database. You are super professional while replying to the user.",
    );
    let ghost mid = *chat;
    chat.add_text(
        Role::User,
        "User has logged into the system, feel free to ask what their name is then introduce them to yourself and your features.",
    );
    proof {
        crate::chat_request::lemma_grew_by_trans(
            before,
            mid,
            *chat,
            seq![
                (Role::System, "You are an AI Todo Application. You can CRUD (Create, Read, Update, and Delete) tasks in the database. You are super professional while replying to the user."@),
            ],
            seq![
                (Role::User, "User has logged into the system, feel free to ask what their name is then introduce them to yourself and your features."@),
            ],
        );
        assert(seq![
            (Role::System, "You are an AI Todo Application. You can CRUD (Create, Read, Update, and Delete) tasks in the database. You are super professional while replying to the user."@),
        ] + seq![
            (Role::User, "User has logged into the system, feel free to ask what their name is then introduce them to yourself and your features."@),
        ] =~= seq![
            (Role::System, "You are an AI Todo Application. You can CRUD (Create, Read, Update, and Delete) tasks in the database. You are super professional while replying to the user."@),
            (Role::User, "User has logged into the system, feel free to ask what their name is then introduce them to yourself and your features."@),
        ]);
    }
}

} // verus!
