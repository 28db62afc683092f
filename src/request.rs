//! The JSON body of a request to the model's chat endpoint.
use vstd::prelude::*;
use vstd::string::*;
use crate::chat_request::Chat;
use crate::message::{role_name, Message, ToolCall};
use crate::options::ChatRequestOptions;
use crate::text::{decimal, decimal_text};
use crate::tool::Tool;
use crate::wire::{quoted_then, tool_json, tool_value, write_string};

verus! {

/// A JSON string literal for `s`.
pub open spec fn quoted(s: Seq<char>) -> Seq<char> {
    quoted_then(s, Seq::empty())
}

/// Items separated by commas.
pub open spec fn joined(items: Seq<Seq<char>>) -> Seq<char>
    decreases items.len(),
{
    if items.len() == 0 {
        Seq::empty()
    } else if items.len() == 1 {
        items[0]
    } else {
        joined(items.drop_last()) + ","@ + items.last()
    }
}

pub open spec fn argument_json(e: (Seq<char>, Seq<char>)) -> Seq<char> {
    quoted(e.0) + ":"@ + quoted(e.1)
}

pub open spec fn call_json(c: ToolCall) -> Seq<char> {
    "{\"function\":{\"name\":"@ + quoted(c.function.name@) + ",\"arguments\":{"@ + joined(
        c.function.arguments@.map_values(|e: (Seq<char>, Seq<char>)| argument_json(e)),
    ) + "}}}"@
}

pub open spec fn calls_json(calls: Option<Vec<ToolCall>>) -> Seq<char> {
    match calls {
        None => Seq::empty(),
        Some(v) => ",\"tool_calls\":["@ + joined(v@.map_values(|c: ToolCall| call_json(c))) + "]"@,
    }
}

/// A message as a JSON object; a message without tool calls has no `tool_calls` member.
pub open spec fn message_json(m: Message) -> Seq<char> {
    "{\"role\":"@ + quoted(role_name(m.role)) + ",\"content\":"@ + quoted(m.content@) + calls_json(
        m.tool_calls,
    ) + "}"@
}

pub open spec fn flag_json(b: Option<bool>) -> Seq<char> {
    match b {
        Some(true) => "true"@,
        Some(false) => "false"@,
        None => "null"@,
    }
}

/// The options object: the system prompt and the seed when set, then the
/// temperature as the given number text.
pub open spec fn options_json(o: Option<ChatRequestOptions>, temperature: Seq<char>) -> Seq<char> {
    match o {
        None => "null"@,
        Some(o) => "{"@ + match o.system {
            Some(s) => "\"system\":"@ + quoted(s@) + ","@,
            None => Seq::empty(),
        } + match o.seed {
            Some(n) => "\"seed\":"@ + decimal_text(n as int) + ","@,
            None => Seq::empty(),
        } + "\"temperature\":"@ + temperature + "}"@,
    }
}

/// The request body for a session.
pub open spec fn chat_json(c: Chat, temperature: Seq<char>) -> Seq<char> {
    "{\"model\":"@ + quoted(c.model@) + ",\"messages\":["@ + joined(
        c.messages@.map_values(|m: Message| message_json(m)),
    ) + "],\"stream\":"@ + flag_json(c.stream) + ",\"raw\":"@ + flag_json(c.raw) + ",\"tools\":["@
        + joined(c.tools@.map_values(|t: Tool| tool_json(tool_value(t)))) + "],\"options\":"@
        + options_json(c.options, temperature) + "}"@
}

proof fn lemma_joined_step(items: Seq<Seq<char>>, i: int)
    requires
        0 <= i < items.len(),
    ensures
        joined(items.take(i + 1)) == joined(items.take(i)) + (if i == 0 {
            Seq::<char>::empty()
        } else {
            ","@
        }) + items[i],
{
    let t = items.take(i + 1);
    assert(t.drop_last() =~= items.take(i));
    assert(t.last() == items[i]);
    if i == 0 {
        assert(joined(items.take(0)) =~= Seq::<char>::empty());
        assert(joined(t) == items[0]);
        assert(Seq::<char>::empty() + Seq::<char>::empty() + items[0] =~= items[0]);
    }
}

proof fn lemma_append_item(
    start: Seq<char>,
    prev: Seq<char>,
    next: Seq<char>,
    items: Seq<Seq<char>>,
    i: int,
)
    requires
        0 <= i < items.len(),
        prev == start + joined(items.take(i)),
        next == prev + (if i == 0 {
            Seq::<char>::empty()
        } else {
            ","@
        }) + items[i],
    ensures
        next == start + joined(items.take(i + 1)),
{
    lemma_joined_step(items, i);
    assert(next =~= start + joined(items.take(i + 1)));
}

proof fn lemma_joined_all(items: Seq<Seq<char>>)
    ensures
        joined(items.take(items.len() as int)) == joined(items),
{
    assert(items.take(items.len() as int) =~= items);
}

fn write_arguments(out: &mut String, call: &ToolCall)
    ensures
        final(out)@ == old(out)@ + joined(
            call.function.arguments@.map_values(|e: (Seq<char>, Seq<char>)| argument_json(e)),
        ),
{
    let entries = call.function.arguments.entries();
    let ghost items = call.function.arguments@.map_values(
        |e: (Seq<char>, Seq<char>)| argument_json(e),
    );
    let ghost start = out@;
    proof {
        assert(joined(items.take(0)) =~= Seq::<char>::empty());
        assert(out@ =~= start + joined(items.take(0)));
    }
    let mut i: usize = 0;
    while i < entries.len()
        invariant
            i <= entries@.len(),
            entries@.map_values(|e: (String, String)| (e.0@, e.1@)) == call.function.arguments@,
            items == call.function.arguments@.map_values(
                |e: (Seq<char>, Seq<char>)| argument_json(e),
            ),
            out@ == start + joined(items.take(i as int)),
        decreases entries@.len() - i,
    {
        let ghost before = out@;
        if i > 0 {
            out.append(",");
        }
        write_string(out, entries[i].0.as_str());
        out.append(":");
        write_string(out, entries[i].1.as_str());
        proof {
            lemma_joined_step(items, i as int);
            assert(items[i as int] == argument_json((entries@[i as int].0@, entries@[i as int].1@)));
            assert(out@ =~= start + joined(items.take(i + 1)));
        }
        i = i + 1;
    }
    proof {
        lemma_joined_all(items);
    }
}

fn write_call(out: &mut String, call: &ToolCall)
    ensures
        final(out)@ == old(out)@ + call_json(*call),
{
    let ghost start = out@;
    out.append("{\"function\":{\"name\":");
    write_string(out, call.function.name.as_str());
    out.append(",\"arguments\":{");
    write_arguments(out, call);
    out.append("}}}");
    proof {
        assert(out@ =~= start + call_json(*call));
    }
}

fn write_calls(out: &mut String, calls: &Option<Vec<ToolCall>>)
    ensures
        final(out)@ == old(out)@ + calls_json(*calls),
{
    let ghost start = out@;
    match calls {
        None => {
            proof {
                assert(out@ =~= start + calls_json(*calls));
            }
        },
        Some(v) => {
            let ghost items = v@.map_values(|c: ToolCall| call_json(c));
            out.append(",\"tool_calls\":[");
            let ghost mid = out@;
            proof {
                assert(joined(items.take(0)) =~= Seq::<char>::empty());
                assert(out@ =~= mid + joined(items.take(0)));
            }
            let mut i: usize = 0;
            while i < v.len()
                invariant
                    i <= v@.len(),
                    items == v@.map_values(|c: ToolCall| call_json(c)),
                    out@ == mid + joined(items.take(i as int)),
                decreases v@.len() - i,
            {
                if i > 0 {
                    out.append(",");
                }
                write_call(out, &v[i]);
                proof {
                    lemma_joined_step(items, i as int);
                    assert(out@ =~= mid + joined(items.take(i + 1)));
                }
                i = i + 1;
            }
            out.append("]");
            proof {
                lemma_joined_all(items);
                assert(out@ =~= start + calls_json(*calls));
            }
        },
    }
}

fn write_message(out: &mut String, m: &Message)
    ensures
        final(out)@ == old(out)@ + message_json(*m),
{
    let ghost start = out@;
    out.append("{\"role\":");
    write_string(out, m.role.name());
    out.append(",\"content\":");
    write_string(out, m.content.as_str());
    write_calls(out, &m.tool_calls);
    out.append("}");
    proof {
        assert(out@ =~= start + message_json(*m));
    }
}

fn write_messages(out: &mut String, messages: &Vec<Message>)
    ensures
        final(out)@ == old(out)@ + joined(messages@.map_values(|m: Message| message_json(m))),
{
    let ghost items = messages@.map_values(|m: Message| message_json(m));
    let ghost start = out@;
    proof {
        assert(joined(items.take(0)) =~= Seq::<char>::empty());
        assert(out@ =~= start + joined(items.take(0)));
    }
    let mut i: usize = 0;
    while i < messages.len()
        invariant
            i <= messages@.len(),
            items == messages@.map_values(|m: Message| message_json(m)),
            out@ == start + joined(items.take(i as int)),
        decreases messages@.len() - i,
    {
        if i > 0 {
            out.append(",");
        }
        write_message(out, &messages[i]);
        proof {
            lemma_joined_step(items, i as int);
            assert(out@ =~= start + joined(items.take(i + 1)));
        }
        i = i + 1;
    }
    proof {
        lemma_joined_all(items);
    }
}

fn write_tools(out: &mut String, tools: &Vec<Tool>)
    ensures
        final(out)@ == old(out)@ + joined(tools@.map_values(|t: Tool| tool_json(tool_value(t)))),
{
    let ghost items = tools@.map_values(|t: Tool| tool_json(tool_value(t)));
    let ghost start = out@;
    proof {
        assert(joined(items.take(0)) =~= Seq::<char>::empty());
        assert(out@ =~= start + joined(items.take(0)));
    }
    let mut i: usize = 0;
    while i < tools.len()
        invariant
            i <= tools@.len(),
            items == tools@.map_values(|t: Tool| tool_json(tool_value(t))),
            out@ == start + joined(items.take(i as int)),
        decreases tools@.len() - i,
    {
        let ghost prev = out@;
        if i > 0 {
            out.append(",");
        }
        let text = tools[i].to_json();
        out.append(text.as_str());
        proof {
            assert(items[i as int] == text@);
            assert(out@ == prev + (if i == 0 { Seq::<char>::empty() } else { ","@ }) + items[i as int]) by {
                assert(out@ =~= prev + (if i == 0 { Seq::<char>::empty() } else { ","@ }) + text@);
            }
            lemma_append_item(start, prev, out@, items, i as int);
        }
        i = i + 1;
    }
    proof {
        lemma_joined_all(items);
    }
}

fn write_flag(out: &mut String, b: Option<bool>)
    ensures
        final(out)@ == old(out)@ + flag_json(b),
{
    match b {
        Some(true) => out.append("true"),
        Some(false) => out.append("false"),
        None => out.append("null"),
    }
}

fn write_options(out: &mut String, options: &Option<ChatRequestOptions>, temperature: &str)
    ensures
        final(out)@ == old(out)@ + options_json(*options, temperature@),
{
    let ghost start = out@;
    match options {
        None => out.append("null"),
        Some(o) => {
            out.append("{");
            let ghost a = out@;
            match &o.system {
                Some(s) => {
                    out.append("\"system\":");
                    write_string(out, s.as_str());
                    out.append(",");
                },
                None => {},
            }
            let ghost b = out@;
            match o.seed {
                Some(n) => {
                    out.append("\"seed\":");
                    out.append(decimal(n as i128).as_str());
                    out.append(",");
                },
                None => {},
            }
            let ghost c = out@;
            out.append("\"temperature\":");
            out.append(temperature);
            out.append("}");
            proof {
                assert(out@ =~= start + options_json(*options, temperature@));
            }
        },
    }
}

impl Chat {
    /// The request body for the session, with the temperature written as
    /// the given number text.
    pub fn to_json(&self, temperature: &str) -> (r: String)
        ensures
            r@ == chat_json(*self, temperature@),
    {
        let mut out = String::new();
        out.append("{\"model\":");
        write_string(&mut out, self.model.as_str());
        out.append(",\"messages\":[");
        write_messages(&mut out, &self.messages);
        out.append("],\"stream\":");
        write_flag(&mut out, self.stream);
        out.append(",\"raw\":");
        write_flag(&mut out, self.raw);
        out.append(",\"tools\":[");
        write_tools(&mut out, &self.tools);
        out.append("],\"options\":");
        write_options(&mut out, &self.options, temperature);
        out.append("}");
        proof {
            assert(out@ =~= chat_json(*self, temperature@));
        }
        out
    }
}

} // verus!
