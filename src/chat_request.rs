//! A chat session: the transcript, the tool catalogue and the options, and
//! what a reply of the model does to them.
use vstd::prelude::*;
use crate::message::{Message, Role, is_plain, same_message};
use crate::options::ChatRequestOptions;
use crate::tool::Tool;

verus! {

/// Why a round trip to the model gave no reply: the endpoint could not be
/// reached, answered with an error status, or sent a body that did not decode.
#[derive(Debug, PartialEq, Eq)]
pub struct TransportError {
    pub context: String,
}

/// The body of the model's answer.
#[derive(Debug, PartialEq, Eq)]
pub struct ChatResponse {
    pub model: String,
    pub message: Message,
}

/// One conversation with a model.
#[derive(Debug, PartialEq, Eq)]
pub struct Chat {
    pub model: String,
    pub messages: Vec<Message>,
    pub stream: Option<bool>,
    pub raw: Option<bool>,
    pub tools: Vec<Tool>,
    pub options: Option<ChatRequestOptions>,
}

/// The session keeps each reply in its transcript.
pub open spec fn saves(c: Chat) -> bool {
    match c.options {
        Some(o) => o.save_messages,
        None => false,
    }
}

/// Two sessions agree on everything but the transcript.
pub open spec fn same_setup(a: Chat, b: Chat) -> bool {
    &&& a.model == b.model
    &&& a.stream == b.stream
    &&& a.raw == b.raw
    &&& a.tools == b.tools
    &&& a.options == b.options
}

/// `after` is `before` with the plain messages `added` (role and text) appended.
pub open spec fn grew_by(before: Chat, after: Chat, added: Seq<(Role, Seq<char>)>) -> bool {
    let n = before.messages@.len();
    &&& same_setup(before, after)
    &&& after.messages@.len() == n + added.len()
    &&& after.messages@.subrange(0, n as int) == before.messages@
    &&& forall|i: int|
        0 <= i < added.len() ==> is_plain(
            #[trigger] after.messages@[n + i],
            added[i].0,
            added[i].1,
        )
}

/// Growing by one list of messages and then by another is growing by both.
pub proof fn lemma_grew_by_trans(
    a: Chat,
    b: Chat,
    c: Chat,
    x: Seq<(Role, Seq<char>)>,
    y: Seq<(Role, Seq<char>)>,
)
    requires
        grew_by(a, b, x),
        grew_by(b, c, y),
    ensures
        grew_by(a, c, x + y),
{
    let n = a.messages@.len();
    let m = b.messages@.len();
    assert(c.messages@.subrange(0, n as int) =~= a.messages@) by {
        assert forall|i: int| 0 <= i < n implies c.messages@[i] == a.messages@[i] by {
            assert(c.messages@.subrange(0, m as int)[i] == c.messages@[i]);
            assert(b.messages@.subrange(0, n as int)[i] == b.messages@[i]);
        }
    }
    assert forall|i: int| 0 <= i < (x + y).len() implies is_plain(
        #[trigger] c.messages@[n + i],
        (x + y)[i].0,
        (x + y)[i].1,
    ) by {
        if i < x.len() {
            assert(c.messages@.subrange(0, m as int)[n + i] == c.messages@[n + i]);
            assert(b.messages@[n + i] == c.messages@[n + i]);
        } else {
            assert(c.messages@[m + (i - x.len())] == c.messages@[n + i]);
        }
    }
}

/// A session is unchanged: it grew by nothing.
pub proof fn lemma_grew_by_nothing(a: Chat)
    ensures
        grew_by(a, a, Seq::empty()),
{
    assert(a.messages@.subrange(0, a.messages@.len() as int) =~= a.messages@);
}

/// How recording the outcome of a round trip changes a session: only the
/// transcript changes, and only by the reply itself, when the options keep replies.
pub open spec fn recorded(before: Chat, reply: Result<Message, TransportError>, after: Chat) -> bool {
    &&& same_setup(before, after)
    &&& (reply is Err || !saves(before)) ==> after.messages == before.messages
    &&& (reply is Ok && saves(before)) ==> {
        &&& after.messages@.len() == before.messages@.len() + 1
        &&& after.messages@.drop_last() == before.messages@
        &&& same_message(after.messages@.last(), reply.unwrap())
    }
}

/// A round trip adds at most one message to the transcript: exactly one when
/// it brought a reply and the options keep replies, none otherwise.
pub proof fn lemma_at_most_one_appended(
    before: Chat,
    reply: Result<Message, TransportError>,
    after: Chat,
)
    requires
        recorded(before, reply, after),
    ensures
        after.messages@.len() == before.messages@.len() + if reply is Ok && saves(before) {
            1int
        } else {
            0int
        },
        after.messages@.subrange(0, before.messages@.len() as int) == before.messages@,
{
    if reply is Ok && saves(before) {
        assert(after.messages@.subrange(0, before.messages@.len() as int) =~= after.messages@.drop_last());
    } else {
        assert(after.messages@.subrange(0, before.messages@.len() as int) =~= before.messages@);
    }
}

impl Chat {
    /// An empty session for `model`, not streamed and not raw.
    pub fn new(model: &str, options: Option<ChatRequestOptions>) -> (r: Chat)
        ensures
            r.model@ == model@,
            r.messages@.len() == 0,
            r.stream == Some(false),
            r.raw == Some(false),
            r.tools@.len() == 0,
            r.options == options,
    {
        Chat {
            model: String::from_str(model),
            messages: Vec::new(),
            stream: Some(false),
            raw: Some(false),
            tools: Vec::new(),
            options,
        }
    }

    pub fn add_message(&mut self, message: Message)
        ensures
            final(self).messages@ == old(self).messages@.push(message),
            same_setup(*old(self), *final(self)),
    {
        self.messages.push(message);
    }

    pub fn add_tool(&mut self, tool: Tool)
        ensures
            final(self).tools@ == old(self).tools@.push(tool),
            final(self).messages == old(self).messages,
            final(self).model == old(self).model,
            final(self).stream == old(self).stream,
            final(self).raw == old(self).raw,
            final(self).options == old(self).options,
    {
        self.tools.push(tool);
    }

    /// Appends a plain message of the given role and text.
    pub fn add_text(&mut self, role: Role, content: &str)
        ensures
            grew_by(*old(self), *final(self), seq![(role, content@)]),
    {
        let ghost before = *self;
        self.messages.push(Message::new(role, String::from_str(content)));
        proof {
            assert(self.messages@.subrange(0, before.messages@.len() as int) =~= before.messages@);
            assert(self.messages@[before.messages@.len() + 0int] == self.messages@.last());
        }
    }

    /// Whether each reply is kept in the transcript.
    pub fn saves_messages(&self) -> (r: bool)
        ensures
            r == saves(*self),
    {
        match &self.options {
            Some(o) => o.save_messages,
            None => false,
        }
    }

    /// Takes the outcome of one round trip to the model. A reply is kept in
    /// the transcript if and only if the options say so, and is handed back;
    /// a failure leaves the session as it was.
    pub fn record_reply(&mut self, reply: Result<Message, TransportError>) -> (r: Result<
        Message,
        TransportError,
    >)
        ensures
            r == reply,
            recorded(*old(self), reply, *final(self)),
    {
        match reply {
            Ok(message) => {
                if self.saves_messages() {
                    let kept = message.clone();
                    self.messages.push(kept);
                    proof {
                        assert(self.messages@.drop_last() =~= old(self).messages@);
                    }
                }
                Ok(message)
            },
            Err(e) => Err(e),
        }
    }
}

} // verus!
