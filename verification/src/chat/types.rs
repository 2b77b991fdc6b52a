//! Messages and the parts of the chat API's replies that the client reads.

use vstd::prelude::*;

verus! {

/// One message of a conversation.
#[derive(Debug, Clone)]
pub struct ChatMessage {
    pub role: String,
    pub content: String,
}

/// The characters of a [`ChatMessage`].
pub struct ChatMessageModel {
    pub role: Seq<char>,
    pub content: Seq<char>,
}

impl DeepView for ChatMessage {
    type V = ChatMessageModel;

    open spec fn deep_view(&self) -> ChatMessageModel {
        ChatMessageModel { role: self.role@, content: self.content@ }
    }
}

/// A message the user wrote.
pub open spec fn user_message(content: Seq<char>) -> ChatMessageModel {
    ChatMessageModel { role: "user"@, content }
}

/// A message the model wrote.
pub open spec fn assistant_message(content: Seq<char>) -> ChatMessageModel {
    ChatMessageModel { role: "assistant"@, content }
}

impl ChatMessage {
    pub fn user(content: String) -> (m: Self)
        ensures
            m.deep_view() == user_message(content@),
    {
        ChatMessage { role: "user".to_string(), content }
    }

    pub fn assistant(content: String) -> (m: Self)
        ensures
            m.deep_view() == assistant_message(content@),
    {
        ChatMessage { role: "assistant".to_string(), content }
    }
}

/// Copies of the messages, in order.
pub fn copy_messages(v: &[ChatMessage]) -> (r: Vec<ChatMessage>)
    ensures
        r.deep_view() == v.deep_view(),
{
    let mut out: Vec<ChatMessage> = Vec::new();
    let mut i: usize = 0;
    while i < v.len()
        invariant
            i <= v.len(),
            out.deep_view() =~= v.deep_view().take(i as int),
        decreases v.len() - i,
    {
        let ghost before = out.deep_view();
        out.push(ChatMessage { role: v[i].role.clone(), content: v[i].content.clone() });
        i += 1;
        proof {
            assert(out.deep_view() =~= before.push(v[i - 1].deep_view()));
        }
    }
    proof {
        assert(v.deep_view().take(i as int) =~= v.deep_view());
    }
    out
}

/// The body of a request for a reply.
pub struct ChatRequest {
    pub model: String,
    pub messages: Vec<ChatMessage>,
    pub stream: bool,
}

/// One piece of a streamed reply.
pub struct StreamChunk {
    pub choices: Vec<StreamChoice>,
}

pub struct StreamChoice {
    pub delta: Delta,
    pub finish_reason: Option<String>,
}

pub struct Delta {
    pub content: Option<String>,
}

/// What a choice brings: text, and why the reply ended.
pub struct ChoiceModel {
    pub content: Option<Seq<char>>,
    pub finish_reason: Option<Seq<char>>,
}

impl DeepView for StreamChoice {
    type V = ChoiceModel;

    open spec fn deep_view(&self) -> ChoiceModel {
        ChoiceModel {
            content: self.delta.content.deep_view(),
            finish_reason: self.finish_reason.deep_view(),
        }
    }
}

} // verus!
