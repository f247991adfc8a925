use vstd::prelude::*;

verus! {

/// A structured request, embedded in a model response, asking the host to
/// perform one named, parameterized action.
pub struct ToolCall {
    /// Opaque identifier chosen by the remote service; the matching result
    /// message carries it back.
    pub id: String,
    /// Name of the registered tool to invoke.
    pub name: String,
    /// Raw argument payload, normally a JSON object in text form.
    pub arguments: String,
}

/// Mathematical image of a `ToolCall`.
pub struct ToolCallView {
    pub id: Seq<char>,
    pub name: Seq<char>,
    pub arguments: Seq<char>,
}

impl View for ToolCall {
    type V = ToolCallView;

    open spec fn view(&self) -> ToolCallView {
        ToolCallView { id: self.id@, name: self.name@, arguments: self.arguments@ }
    }
}

impl Clone for ToolCall {
    fn clone(&self) -> (r: Self)
        ensures
            r == *self,
    {
        ToolCall { id: self.id.clone(), name: self.name.clone(), arguments: self.arguments.clone() }
    }
}

/// One entry of the conversation history.
#[allow(inconsistent_fields)]
pub enum Message {
    /// The operating instructions and host platform facts; exactly one stands
    /// at the front of the history.
    System { content: String },
    /// A prompt typed or scripted by the user.
    User { content: String },
    /// A model response: optional free text plus zero or more tool calls.
    Assistant { content: Option<String>, tool_calls: Vec<ToolCall> },
    /// The outcome of exactly one tool call, tied to it by the call's id.
    ToolResult { tool_call_id: String, content: String },
}

/// Mathematical image of a `Message`.
#[allow(inconsistent_fields)]
pub enum MessageView {
    System { content: Seq<char> },
    User { content: Seq<char> },
    Assistant { content: Option<Seq<char>>, tool_calls: Seq<ToolCallView> },
    ToolResult { tool_call_id: Seq<char>, content: Seq<char> },
}

impl View for Message {
    type V = MessageView;

    open spec fn view(&self) -> MessageView {
        match self {
            Message::System { content } => MessageView::System { content: content@ },
            Message::User { content } => MessageView::User { content: content@ },
            Message::Assistant { content, tool_calls } => MessageView::Assistant {
                content: opt_text_view(*content),
                tool_calls: calls_view(tool_calls@),
            },
            Message::ToolResult { tool_call_id, content } => MessageView::ToolResult {
                tool_call_id: tool_call_id@,
                content: content@,
            },
        }
    }
}

impl Clone for Message {
    fn clone(&self) -> (r: Self)
        ensures
            r@ == self@,
    {
        match self {
            Message::System { content } => Message::System { content: content.clone() },
            Message::User { content } => Message::User { content: content.clone() },
            Message::Assistant { content, tool_calls } => {
                let c: Option<String> = match content {
                    Some(c) => Some(c.clone()),
                    None => None,
                };
                let calls: Vec<ToolCall> = tool_calls.clone();
                proof {
                    assert(calls_view(calls@) =~= calls_view(tool_calls@));
                }
                Message::Assistant { content: c, tool_calls: calls }
            },
            Message::ToolResult { tool_call_id, content } => Message::ToolResult {
                tool_call_id: tool_call_id.clone(),
                content: content.clone(),
            },
        }
    }
}

/// The views of the messages of a history, in order.
pub open spec fn msgs_view(h: Seq<Message>) -> Seq<MessageView> {
    h.map_values(|m: Message| m@)
}

/// The views of the tool calls of a batch, in order.
pub open spec fn calls_view(s: Seq<ToolCall>) -> Seq<ToolCallView> {
    s.map_values(|c: ToolCall| c@)
}

/// The view of an optional piece of message text.
pub open spec fn opt_text_view(c: Option<String>) -> Option<Seq<char>> {
    match c {
        Some(s) => Some(s@),
        None => None,
    }
}

/// Number of tool-result messages in `h`.
pub open spec fn count_tool_results(h: Seq<MessageView>) -> nat
    decreases h.len(),
{
    if h.len() == 0 {
        0
    } else {
        count_tool_results(h.drop_last()) + if h.last() is ToolResult {
            1nat
        } else {
            0nat
        }
    }
}

/// Whether `h` contains a tool-result message carrying `id`.
pub open spec fn has_tool_result_for(h: Seq<MessageView>, id: Seq<char>) -> bool {
    exists|i: int|
        0 <= i < h.len() && ((#[trigger] h[i]) matches MessageView::ToolResult {
            tool_call_id,
            ..
        } && tool_call_id == id)
}

} // verus!
