//! Conversation entries: roles, tool calls with their arguments, messages.
use vstd::prelude::*;

verus! {

/// Who wrote a message.
#[derive(Debug, Clone, Copy, PartialEq, Eq, Structural)]
pub enum Role {
    System,
    User,
    Assistant,
    Tool,
}

/// The wire name of a role: its variant name in lower case.
pub open spec fn role_name(r: Role) -> Seq<char> {
    match r {
        Role::System => "system"@,
        Role::User => "user"@,
        Role::Assistant => "assistant"@,
        Role::Tool => "tool"@,
    }
}

/// The role that a wire name stands for; a name that is no role's is read as `User`.
pub open spec fn role_named(s: Seq<char>) -> Role {
    if s == "system"@ {
        Role::System
    } else if s == "assistant"@ {
        Role::Assistant
    } else if s == "tool"@ {
        Role::Tool
    } else {
        Role::User
    }
}

impl Default for Role {
    fn default() -> (r: Role)
        ensures
            r == Role::User,
    {
        Role::User
    }
}

impl Role {
    pub fn name(&self) -> (r: &'static str)
        ensures
            r@ == role_name(*self),
    {
        match self {
            Role::System => "system",
            Role::User => "user",
            Role::Assistant => "assistant",
            Role::Tool => "tool",
        }
    }

    /// Reads a wire name; the model sometimes invents roles, and those are
    /// taken as `User` rather than refused.
    pub fn from_name(s: &str) -> (r: Role)
        ensures
            r == role_named(s@),
    {
        let s = String::from_str(s);
        if s == String::from_str("system") {
            Role::System
        } else if s == String::from_str("assistant") {
            Role::Assistant
        } else if s == String::from_str("tool") {
            Role::Tool
        } else {
            Role::User
        }
    }
}

/// The value that a key is bound to in a sequence of entries: the first
/// entry with that key decides.
pub open spec fn lookup<V>(entries: Seq<(Seq<char>, V)>, key: Seq<char>) -> Option<V>
    decreases entries.len(),
{
    if entries.len() == 0 {
        None
    } else if entries[0].0 == key {
        Some(entries[0].1)
    } else {
        lookup(entries.drop_first(), key)
    }
}

/// The index of the first entry with the given key, or the length if none has it.
pub open spec fn position_of<V>(s: Seq<(Seq<char>, V)>, key: Seq<char>) -> int
    decreases s.len(),
{
    if s.len() == 0 {
        0
    } else if s[0].0 == key {
        0
    } else {
        1 + position_of(s.drop_first(), key)
    }
}

/// An ordered map after binding `key` to `value`: in place if the key is
/// there, at the end if not.
pub open spec fn inserted<V>(s: Seq<(Seq<char>, V)>, key: Seq<char>, value: V) -> Seq<(Seq<char>, V)> {
    let i = position_of(s, key);
    if i < s.len() {
        s.update(i, (key, value))
    } else {
        s.push((key, value))
    }
}

pub proof fn lemma_position_of<V>(s: Seq<(Seq<char>, V)>, key: Seq<char>, i: int)
    requires
        0 <= i < s.len(),
        s[i].0 == key,
        forall|j: int| 0 <= j < i ==> s[j].0 != key,
    ensures
        position_of(s, key) == i,
    decreases i,
{
    if i > 0 {
        lemma_position_of(s.drop_first(), key, i - 1);
    }
}

pub proof fn lemma_position_absent<V>(s: Seq<(Seq<char>, V)>, key: Seq<char>)
    requires
        forall|j: int| 0 <= j < s.len() ==> s[j].0 != key,
    ensures
        position_of(s, key) == s.len(),
    decreases s.len(),
{
    if s.len() > 0 {
        lemma_position_absent(s.drop_first(), key);
    }
}

proof fn lemma_position_bound<V>(s: Seq<(Seq<char>, V)>, key: Seq<char>)
    ensures
        0 <= position_of(s, key) <= s.len(),
        position_of(s, key) < s.len() ==> s[position_of(s, key)].0 == key,
        forall|j: int| 0 <= j < position_of(s, key) ==> s[j].0 != key,
    decreases s.len(),
{
    if s.len() > 0 && s[0].0 != key {
        lemma_position_bound(s.drop_first(), key);
        assert forall|j: int| 0 <= j < position_of(s, key) implies s[j].0 != key by {
            if j > 0 {
                assert(s[j] == s.drop_first()[j - 1]);
            }
        }
    }
}

/// Binding a key makes a lookup of it give the new value and leaves the
/// other keys as they were.
pub proof fn lemma_inserted_lookup<V>(s: Seq<(Seq<char>, V)>, key: Seq<char>, value: V, k: Seq<char>)
    ensures
        lookup(inserted(s, key, value), k) == if k == key {
            Some(value)
        } else {
            lookup(s, k)
        },
{
    lemma_position_bound(s, key);
    let i = position_of(s, key);
    let t = inserted(s, key, value);
    if i < s.len() {
        lemma_lookup_first(t, key, i);
        if k != key {
            lemma_lookup_same_keys(t, s, i, k);
        }
    } else {
        lemma_lookup_first(t, key, i);
        if k != key {
            lemma_lookup_push(s, key, value, k);
        }
    }
}

/// No two entries share a key.
pub open spec fn unique_keys<V>(s: Seq<(Seq<char>, V)>) -> bool {
    forall|i: int, j: int| 0 <= i < s.len() && 0 <= j < s.len() && i != j ==> s[i].0 != s[j].0
}

/// Binding a key keeps the keys unique.
pub proof fn lemma_inserted_unique<V>(s: Seq<(Seq<char>, V)>, key: Seq<char>, value: V)
    requires
        unique_keys(s),
    ensures
        unique_keys(inserted(s, key, value)),
{
    lemma_position_bound(s, key);
    let i = position_of(s, key);
    let t = inserted(s, key, value);
    if i < s.len() {
        assert forall|a: int, b: int| 0 <= a < t.len() && 0 <= b < t.len() && a != b implies t[a].0
            != t[b].0 by {
            assert(t[a].0 == s[a].0);
            assert(t[b].0 == s[b].0);
        }
    } else {
        assert forall|a: int, b: int| 0 <= a < t.len() && 0 <= b < t.len() && a != b implies t[a].0
            != t[b].0 by {
            if a < s.len() && b < s.len() {
                assert(t[a] == s[a] && t[b] == s[b]);
            } else if a == s.len() {
                assert(t[b] == s[b]);
            } else {
                assert(t[a] == s[a]);
            }
        }
    }
}

/// The arguments of a tool call: names bound to text values.
#[derive(Debug, PartialEq, Eq)]
pub struct Arguments {
    entries: Vec<(String, String)>,
}

impl View for Arguments {
    type V = Seq<(Seq<char>, Seq<char>)>;

    closed spec fn view(&self) -> Seq<(Seq<char>, Seq<char>)> {
        self.entries@.map_values(|e: (String, String)| (e.0@, e.1@))
    }
}

pub proof fn lemma_lookup_first<V>(entries: Seq<(Seq<char>, V)>, key: Seq<char>, i: int)
    requires
        0 <= i < entries.len(),
        entries[i].0 == key,
        forall|j: int| 0 <= j < i ==> entries[j].0 != key,
    ensures
        lookup(entries, key) == Some(entries[i].1),
    decreases i,
{
    if i > 0 {
        lemma_lookup_first(entries.drop_first(), key, i - 1);
    }
}

pub proof fn lemma_lookup_absent<V>(entries: Seq<(Seq<char>, V)>, key: Seq<char>)
    requires
        forall|j: int| 0 <= j < entries.len() ==> entries[j].0 != key,
    ensures
        lookup(entries, key) == None::<V>,
    decreases entries.len(),
{
    if entries.len() > 0 {
        lemma_lookup_absent(entries.drop_first(), key);
    }
}

impl Arguments {
    pub fn new() -> (r: Arguments)
        ensures
            r@ == Seq::<(Seq<char>, Seq<char>)>::empty(),
            r.wf(),
    {
        let r = Arguments { entries: Vec::new() };
        assert(r@ =~= Seq::<(Seq<char>, Seq<char>)>::empty());
        r
    }

    pub fn len(&self) -> (r: usize)
        ensures
            r == self@.len(),
    {
        self.entries.len()
    }

    /// The position of the first entry with the given key.
    fn position(&self, key: &str) -> (r: Option<usize>)
        ensures
            match r {
                Some(i) => i < self@.len() && self@[i as int].0 == key@ && forall|j: int|
                    0 <= j < i ==> self@[j].0 != key@,
                None => forall|j: int| 0 <= j < self@.len() ==> self@[j].0 != key@,
            },
    {
        let k = String::from_str(key);
        let mut i: usize = 0;
        while i < self.entries.len()
            invariant
                i <= self.entries@.len(),
                k@ == key@,
                forall|j: int| 0 <= j < i ==> self@[j].0 != key@,
            decreases self.entries@.len() - i,
        {
            if self.entries[i].0 == k {
                return Some(i);
            }
            i = i + 1;
        }
        None
    }

    /// The value bound to `key`.
    pub fn get(&self, key: &str) -> (r: Option<&String>)
        ensures
            match r {
                Some(v) => lookup(self@, key@) == Some(v@),
                None => lookup(self@, key@) == None::<Seq<char>>,
            },
    {
        match self.position(key) {
            Some(i) => {
                proof {
                    lemma_lookup_first(self@, key@, i as int);
                }
                Some(&self.entries[i].1)
            },
            None => {
                proof {
                    lemma_lookup_absent(self@, key@);
                }
                None
            },
        }
    }

    /// No two entries share a name.
    pub open spec fn wf(&self) -> bool {
        unique_keys(self@)
    }

    /// Binds `key` to `value`: the entry of an existing key keeps its place
    /// and takes the new value, a new key is appended.
    pub fn insert(&mut self, key: String, value: String)
        ensures
            final(self)@ == inserted(old(self)@, key@, value@),
            forall|k: Seq<char>|
                lookup(#[trigger] final(self)@, k) == if k == key@ {
                    Some(value@)
                } else {
                    lookup(old(self)@, k)
                },
            old(self).wf() ==> final(self).wf(),
    {
        let ghost before = self@;
        let ghost kv = key@;
        let ghost vv = value@;
        match self.position(key.as_str()) {
            Some(i) => {
                self.entries.set(i, (key, value));
                proof {
                    assert(self@ =~= before.update(i as int, (kv, vv)));
                    lemma_position_of(before, kv, i as int);
                }
            },
            None => {
                self.entries.push((key, value));
                proof {
                    assert(self@ =~= before.push((kv, vv)));
                    lemma_position_absent(before, kv);
                }
            },
        }
        proof {
            assert forall|k: Seq<char>|
                lookup(#[trigger] self@, k) == if k == kv {
                    Some(vv)
                } else {
                    lookup(before, k)
                } by {
                lemma_inserted_lookup(before, kv, vv, k);
            }
            if unique_keys(before) {
                lemma_inserted_unique(before, kv, vv);
            }
        }
    }

    /// The entries in their order.
    pub fn entries(&self) -> (r: &Vec<(String, String)>)
        ensures
            r@.map_values(|e: (String, String)| (e.0@, e.1@)) == self@,
    {
        &self.entries
    }

    pub fn clone(&self) -> (r: Arguments)
        ensures
            r@ == self@,
            self.wf() ==> r.wf(),
    {
        let mut entries: Vec<(String, String)> = Vec::new();
        let mut i: usize = 0;
        while i < self.entries.len()
            invariant
                i <= self.entries@.len(),
                entries@.len() == i,
                forall|j: int| 0 <= j < i ==> (#[trigger] entries@[j]).0@ == self.entries@[j].0@
                    && entries@[j].1@ == self.entries@[j].1@,
            decreases self.entries@.len() - i,
        {
            let k = self.entries[i].0.clone();
            let v = self.entries[i].1.clone();
            entries.push((k, v));
            i = i + 1;
        }
        let r = Arguments { entries };
        assert(r@ =~= self@);
        r
    }
}

proof fn lemma_lookup_same_keys<V>(
    a: Seq<(Seq<char>, V)>,
    b: Seq<(Seq<char>, V)>,
    i: int,
    k: Seq<char>,
)
    requires
        a.len() == b.len(),
        0 <= i < a.len(),
        forall|j: int| 0 <= j < a.len() && j != i ==> a[j] == b[j],
        a[i].0 == b[i].0,
        a[i].0 != k,
    ensures
        lookup(a, k) == lookup(b, k),
    decreases a.len(),
{
    if i > 0 {
        lemma_lookup_same_keys(a.drop_first(), b.drop_first(), i - 1, k);
    } else {
        assert(a.drop_first() =~= b.drop_first());
    }
}

proof fn lemma_lookup_push<V>(
    a: Seq<(Seq<char>, V)>,
    key: Seq<char>,
    value: V,
    k: Seq<char>,
)
    requires
        k != key,
    ensures
        lookup(a.push((key, value)), k) == lookup(a, k),
    decreases a.len(),
{
    if a.len() > 0 {
        assert(a.push((key, value)).drop_first() =~= a.drop_first().push((key, value)));
        lemma_lookup_push(a.drop_first(), key, value, k);
    } else {
        assert(a.push((key, value)).drop_first() =~= a);
    }
}

/// Binding a key in an empty list gives a list of that one entry.
pub proof fn lemma_single_entry(s: Seq<(Seq<char>, Seq<char>)>, key: Seq<char>, value: Seq<char>)
    requires
        s == Seq::<(Seq<char>, Seq<char>)>::empty().push((key, value)),
    ensures
        s == seq![(key, value)],
{
    assert(s =~= seq![(key, value)]);
}

/// The function part of a tool call: the tool's name and its arguments.
#[derive(Debug, PartialEq, Eq)]
pub struct ToolCallFunction {
    pub name: String,
    pub arguments: Arguments,
}

/// A request of the model to run a tool.
#[derive(Debug, PartialEq, Eq)]
pub struct ToolCall {
    pub function: ToolCallFunction,
}

impl ToolCall {
    pub fn new(name: String, arguments: Arguments) -> (r: ToolCall)
        ensures
            r.function.name@ == name@,
            r.function.arguments@ == arguments@,
    {
        ToolCall { function: ToolCallFunction { name, arguments } }
    }

    pub fn clone(&self) -> (r: ToolCall)
        ensures
            r.function.name@ == self.function.name@,
            r.function.arguments@ == self.function.arguments@,
    {
        ToolCall {
            function: ToolCallFunction {
                name: self.function.name.clone(),
                arguments: self.function.arguments.clone(),
            },
        }
    }
}

/// Two tool calls agree on the name and on the arguments.
pub open spec fn same_call(a: ToolCall, b: ToolCall) -> bool {
    a.function.name@ == b.function.name@ && a.function.arguments@ == b.function.arguments@
}

/// Two lists of tool calls agree call by call.
pub open spec fn same_calls(a: Option<Vec<ToolCall>>, b: Option<Vec<ToolCall>>) -> bool {
    match (a, b) {
        (None, None) => true,
        (Some(x), Some(y)) => x@.len() == y@.len() && forall|i: int|
            0 <= i < x@.len() ==> same_call(#[trigger] x@[i], y@[i]),
        _ => false,
    }
}

/// One entry of the conversation.
#[derive(Debug, PartialEq, Eq)]
pub struct Message {
    pub role: Role,
    pub content: String,
    pub tool_calls: Option<Vec<ToolCall>>,
}

/// Two messages carry the same role, text and tool calls.
pub open spec fn same_message(a: Message, b: Message) -> bool {
    a.role == b.role && a.content@ == b.content@ && same_calls(a.tool_calls, b.tool_calls)
}

/// A message of the given role and text, with no tool calls.
pub open spec fn is_plain(m: Message, role: Role, content: Seq<char>) -> bool {
    m.role == role && m.content@ == content && m.tool_calls is None
}

impl Message {
    pub fn new(role: Role, content: String) -> (r: Message)
        ensures
            is_plain(r, role, content@),
    {
        Message { role, content, tool_calls: None }
    }

    pub fn new_user(content: &str) -> (r: Message)
        ensures
            is_plain(r, Role::User, content@),
    {
        Message::new(Role::User, String::from_str(content))
    }

    pub fn new_tool(content: &str) -> (r: Message)
        ensures
            is_plain(r, Role::Tool, content@),
    {
        Message::new(Role::Tool, String::from_str(content))
    }

    pub fn new_system(content: &str) -> (r: Message)
        ensures
            is_plain(r, Role::System, content@),
    {
        Message::new(Role::System, String::from_str(content))
    }

    pub fn new_assistant(content: &str) -> (r: Message)
        ensures
            is_plain(r, Role::Assistant, content@),
    {
        Message::new(Role::Assistant, String::from_str(content))
    }

    /// Puts `text` in front of the content.
    pub fn prepend_content(&mut self, text: &str)
        ensures
            final(self).content@ == text@ + old(self).content@,
            final(self).role == old(self).role,
            final(self).tool_calls == old(self).tool_calls,
    {
        let head = String::from_str(text);
        self.content = head.concat(self.content.as_str());
    }

    pub fn clone(&self) -> (r: Message)
        ensures
            same_message(r, *self),
    {
        let tool_calls = match &self.tool_calls {
            None => None,
            Some(calls) => {
                let mut out: Vec<ToolCall> = Vec::new();
                let mut i: usize = 0;
                while i < calls.len()
                    invariant
                        i <= calls@.len(),
                        out@.len() == i,
                        forall|j: int| 0 <= j < i ==> same_call(#[trigger] out@[j], calls@[j]),
                    decreases calls@.len() - i,
                {
                    out.push(calls[i].clone());
                    i = i + 1;
                }
                Some(out)
            },
        };
        Message { role: self.role, content: self.content.clone(), tool_calls }
    }

    /// The text of the message, as it is shown to a reader.
    pub fn to_string(&self) -> (r: String)
        ensures
            r@ == self.content@,
    {
        self.content.clone()
    }
}

} // verus!
