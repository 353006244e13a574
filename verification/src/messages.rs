//! The conversation data model: messages exchanged with the
//! chat-completion provider during one orchestration run.

use vstd::prelude::*;

verus! {

/// One tool invocation requested by the provider: an id, the name of the
/// tool to run, and the raw argument payload (a JSON text).
pub struct ToolCall {
    pub id: String,
    pub name: String,
    pub arguments: String,
}

impl Clone for ToolCall {
    fn clone(&self) -> (r: Self)
        ensures
            r == *self,
    {
        let r = ToolCall {
            id: self.id.clone(),
            name: self.name.clone(),
            arguments: self.arguments.clone(),
        };
        proof {
            assert(r == *self);
        }
        r
    }
}

/// One turn of a conversation.
pub enum Message {
    /// The fixed instruction that opens the conversation.
    System { text: String },
    /// The caller's input, verbatim.
    User { text: String },
    /// A provider turn, together with the tool invocations it requested.
    Assistant { text: String, tool_calls: Vec<ToolCall> },
    /// The textual result of one executed tool invocation.
    ToolResult { tool_call_id: String, tool_name: String, text: String },
}

impl Message {
    pub open spec fn is_tool_result(self) -> bool {
        self matches Message::ToolResult { .. }
    }

    /// A tool-result turn is justified by an assistant turn that requested
    /// a tool call with the same id and tool name.
    pub open spec fn justified_by(self, m: Message) -> bool {
        match (self, m) {
            (
                Message::ToolResult { tool_call_id, tool_name, .. },
                Message::Assistant { tool_calls, .. },
            ) => exists|k: int|
                #![trigger tool_calls@[k]]
                0 <= k < tool_calls@.len() && tool_calls@[k].id@ == tool_call_id@
                    && tool_calls@[k].name@ == tool_name@,
            _ => false,
        }
    }
}

/// Every tool-result turn references a tool call previously emitted by an
/// assistant turn of the same conversation.
pub open spec fn conversation_wf(s: Seq<Message>) -> bool {
    forall|i: int|
        0 <= i < s.len() && (#[trigger] s[i]).is_tool_result() ==> exists|j: int|
            0 <= j < i && s[i].justified_by(#[trigger] s[j])
}

proof fn lemma_push_wf(s: Seq<Message>, m: Message)
    requires
        conversation_wf(s),
        m.is_tool_result() ==> exists|j: int| 0 <= j < s.len() && m.justified_by(#[trigger] s[j]),
    ensures
        conversation_wf(s.push(m)),
{
    assert forall|i: int|
        0 <= i < s.push(m).len() && (#[trigger] s.push(m)[i]).is_tool_result() implies exists|j: int|
        0 <= j < i && s.push(m)[i].justified_by(#[trigger] s.push(m)[j]) by {
        if i < s.len() {
            assert(s[i].is_tool_result());
            let j = choose|j: int| 0 <= j < i && s[i].justified_by(#[trigger] s[j]);
            assert(s.push(m)[i].justified_by(s.push(m)[j]));
        } else {
            assert(s.push(m)[i] == m);
            let j = choose|j: int| 0 <= j < s.len() && m.justified_by(#[trigger] s[j]);
            assert(s.push(m)[i].justified_by(s.push(m)[j]));
        }
    }
}

/// The ordered message history of one orchestration run; append-only.
pub struct Conversation {
    messages: Vec<Message>,
}

impl View for Conversation {
    type V = Seq<Message>;

    closed spec fn view(&self) -> Seq<Message> {
        self.messages@
    }
}

impl Conversation {
    pub open spec fn wf(self) -> bool {
        conversation_wf(self@)
    }

    pub fn new() -> (c: Conversation)
        ensures
            c@ == Seq::<Message>::empty(),
            c.wf(),
    {
        Conversation { messages: Vec::new() }
    }

    pub fn messages(&self) -> (r: &Vec<Message>)
        ensures
            r@ == self@,
    {
        &self.messages
    }

    pub fn len(&self) -> (n: usize)
        ensures
            n == self@.len(),
    {
        self.messages.len()
    }

    pub fn push_system(&mut self, text: String)
        requires
            old(self).wf(),
        ensures
            final(self)@ == old(self)@.push(Message::System { text }),
            final(self).wf(),
    {
        proof {
            lemma_push_wf(self.messages@, Message::System { text: text });
        }
        self.messages.push(Message::System { text });
    }

    pub fn push_user(&mut self, text: String)
        requires
            old(self).wf(),
        ensures
            final(self)@ == old(self)@.push(Message::User { text }),
            final(self).wf(),
    {
        proof {
            lemma_push_wf(self.messages@, Message::User { text: text });
        }
        self.messages.push(Message::User { text });
    }

    pub fn push_assistant(&mut self, text: String, tool_calls: Vec<ToolCall>)
        requires
            old(self).wf(),
        ensures
            final(self)@ == old(self)@.push(Message::Assistant { text, tool_calls }),
            final(self).wf(),
    {
        proof {
            lemma_push_wf(
                self.messages@,
                Message::Assistant { text: text, tool_calls: tool_calls },
            );
        }
        self.messages.push(Message::Assistant { text, tool_calls });
    }

    /// Appends a tool result; the caller must point at an assistant turn
    /// already in the conversation that requested this very call.
    pub fn push_tool_result(&mut self, tool_call_id: String, tool_name: String, text: String)
        requires
            old(self).wf(),
            exists|j: int|
                0 <= j < old(self)@.len() && (Message::ToolResult {
                    tool_call_id: tool_call_id,
                    tool_name: tool_name,
                    text: text,
                }).justified_by(#[trigger] old(self)@[j]),
        ensures
            final(self)@ == old(self)@.push(
                Message::ToolResult { tool_call_id, tool_name, text },
            ),
            final(self).wf(),
    {
        let m = Message::ToolResult { tool_call_id, tool_name, text };
        proof {
            lemma_push_wf(self.messages@, m);
        }
        self.messages.push(m);
    }
}

/// Appending a message never disturbs the turns already present: every
/// prior index still holds the same message, verbatim.
pub proof fn lemma_append_preserves_prior(s: Seq<Message>, m: Message)
    ensures
        s.push(m).len() == s.len() + 1,
        forall|i: int| 0 <= i < s.len() ==> s.push(m)[i] == s[i],
{
}

} // verus!
