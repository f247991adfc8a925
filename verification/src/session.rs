use crate::config::{platform_prompt, PlatformInfo};
use crate::messages::{
    calls_view, count_tool_results, has_tool_result_for, msgs_view, opt_text_view, Message,
    MessageView, ToolCall, ToolCallView,
};
use vstd::prelude::*;

verus! {

/// The operating instructions of the system message, platform block aside.
pub open spec fn system_preamble() -> Seq<char> {
    "You are now acting as a AI-powered terminal shell, operating on the user's real computer.\nThe user will send you questions, prompts, or descriptions of the tasks.\nYou should take the prompts, and either answer the user's questions, or fullfill the tasks.\nWhen necessary, generate the system commands, and execute them to fullfill the tasks.\nEnsure you are escaping the quotes, newlines, and other special characters properly in the commands.\nThe system command output are displayed to the user directly, so don't simply repeat the output twice in your response.\nDon't do anything else that the user doesn't ask for, or not relevant to the tasks.\nYour responses should be as clear and concise as possible.\n\nApart from a terminal shell, when necessary, you also need to act as a normal ChatGPT to fullfill any generic tasks that the user asks you to do.\nDon't refuse to do anything that the user asks you to do, unless it's illegal, or violates the user's privacy.\n\nYou may use markdown to format your responses. Always use '*' not '-' for unordered list items.\n\n"@
}

/// The content of the system message that opens every conversation: the
/// operating instructions followed by the host platform facts.
pub fn initial_system_prompt(info: &PlatformInfo) -> (r: String)
    ensures
        r@ == system_preamble() + platform_prompt(info.os@, info.arch@, info.user@),
{
    let mut r = String::from_str(
        "You are now acting as a AI-powered terminal shell, operating on the user's real computer.\nThe user will send you questions, prompts, or descriptions of the tasks.\nYou should take the prompts, and either answer the user's questions, or fullfill the tasks.\nWhen necessary, generate the system commands, and execute them to fullfill the tasks.\nEnsure you are escaping the quotes, newlines, and other special characters properly in the commands.\nThe system command output are displayed to the user directly, so don't simply repeat the output twice in your response.\nDon't do anything else that the user doesn't ask for, or not relevant to the tasks.\nYour responses should be as clear and concise as possible.\n\nApart from a terminal shell, when necessary, you also need to act as a normal ChatGPT to fullfill any generic tasks that the user asks you to do.\nDon't refuse to do anything that the user asks you to do, unless it's illegal, or violates the user's privacy.\n\nYou may use markdown to format your responses. Always use '*' not '-' for unordered list items.\n\n",
    );
    r.append(info.dump_as_prompt().as_str());
    r
}

/// Where a turn stands in its request / response / tool-resolution cycle.
#[derive(PartialEq, Eq, Structural, Clone, Copy, Debug)]
pub enum Phase {
    /// A request must be sent: the working history ends in a user or
    /// tool-result message.
    AwaitingRequest,
    /// The latest response carried tool calls; they are resolved strictly in
    /// the order they appeared.
    ExecutingTools,
    /// The turn is over: the latest response carried no tool calls, or the
    /// user aborted a call. Control returns to the caller.
    Terminal,
}

/// One full request / response / tool-resolution cycle, triggered by a single
/// user prompt.
///
/// The surrounding shell drives it: while the phase is `AwaitingRequest` it
/// sends `history` to the completion service and reports the response through
/// `on_response`; while the phase is `ExecutingTools` it resolves
/// `current_call` and reports the outcome through `record_tool_result`; at
/// `Terminal` it hands the turn back to the session.
pub struct Turn {
    /// Working copy of the conversation history for this turn.
    pub history: Vec<Message>,
    /// The tool calls of the batch now being resolved.
    pub batch: Vec<ToolCall>,
    /// How many calls of the batch have been executed and answered.
    pub done_calls: usize,
    /// Current state of the turn's state machine.
    pub phase: Phase,
    /// Whether the user aborted a call of the current batch.
    pub aborted: bool,
    /// Index in `history` of the assistant message that opened the batch.
    pub batch_start: Ghost<int>,
}

impl Turn {
    /// The views of the messages of the working history.
    pub open spec fn hist(self) -> Seq<MessageView> {
        msgs_view(self.history@)
    }

    /// The views of the tool calls of the current batch.
    pub open spec fn calls(self) -> Seq<ToolCallView> {
        calls_view(self.batch@)
    }

    /// Well-formedness: the history always holds exactly one tool-result
    /// message for each executed call of the current batch, in batch order,
    /// directly after the assistant message that requested the batch.
    pub open spec fn wf(self) -> bool {
        &&& self.hist().len() > 0
        &&& self.hist()[0] is System
        &&& self.done_calls <= self.batch.len()
        &&& (self.phase is ExecutingTools ==> self.done_calls < self.batch.len() && !self.aborted)
        &&& (self.aborted ==> self.phase is Terminal && self.done_calls >= 1)
        &&& (self.phase is AwaitingRequest && self.batch.len() > 0 ==> self.done_calls
            == self.batch.len())
        &&& (self.batch.len() == 0 ==> self.done_calls == 0 && !(self.phase is ExecutingTools)
            && !self.aborted)
        &&& (self.batch.len() > 0 ==> {
            &&& 0 <= self.batch_start@ < self.hist().len()
            &&& self.hist().len() == self.batch_start@ + 1 + self.done_calls
            &&& (self.hist()[self.batch_start@] matches MessageView::Assistant { tool_calls, .. }
                && tool_calls == self.calls())
            &&& forall|j: int|
                0 <= j < self.done_calls ==> ((#[trigger] self.hist()[self.batch_start@ + 1
                    + j]) matches MessageView::ToolResult { tool_call_id, .. } && tool_call_id
                    == self.calls()[j].id)
        })
    }

    /// The tool call that must be resolved next.
    pub fn current_call(&self) -> (c: &ToolCall)
        requires
            self.wf(),
            self.phase is ExecutingTools,
        ensures
            c@ == self.calls()[self.done_calls as int],
    {
        &self.batch[self.done_calls]
    }

    /// Takes in a completion response: its message is appended to the working
    /// history, and its tool calls — if any — become the batch to resolve.
    pub fn on_response(&mut self, content: Option<String>, tool_calls: Vec<ToolCall>)
        requires
            old(self).wf(),
            old(self).phase is AwaitingRequest,
        ensures
            final(self).wf(),
            final(self).hist() == old(self).hist().push(
                MessageView::Assistant {
                    content: opt_text_view(content),
                    tool_calls: calls_view(tool_calls@),
                },
            ),
            final(self).calls() == calls_view(tool_calls@),
            final(self).done_calls == 0,
            final(self).aborted == false,
            tool_calls@.len() == 0 ==> final(self).phase is Terminal,
            tool_calls@.len() > 0 ==> final(self).phase is ExecutingTools,
    {
        let ghost bs: int = self.history@.len() as int;
        let batch: Vec<ToolCall> = tool_calls.clone();
        let has_calls: bool = batch.len() > 0;
        let msg = Message::Assistant { content, tool_calls };
        self.history.push(msg);
        self.batch = batch;
        self.done_calls = 0;
        self.aborted = false;
        self.batch_start = Ghost(bs);
        self.phase = if has_calls {
            Phase::ExecutingTools
        } else {
            Phase::Terminal
        };
        proof {
            assert(self.calls() =~= calls_view(tool_calls@));
            assert(self.hist() =~= old(self).hist().push(
                MessageView::Assistant {
                    content: opt_text_view(content),
                    tool_calls: calls_view(tool_calls@),
                },
            ));
        }
    }

    /// Records the outcome of the current tool call: exactly one tool-result
    /// message, carrying the call's id, is appended. An abort makes the turn
    /// terminal at once, so the remaining calls of the batch are skipped; a
    /// completed batch sends the turn back to `AwaitingRequest` for the
    /// follow-up request.
    pub fn record_tool_result(&mut self, payload: String, aborted: bool)
        requires
            old(self).wf(),
            old(self).phase is ExecutingTools,
        ensures
            final(self).wf(),
            final(self).hist() == old(self).hist().push(
                MessageView::ToolResult {
                    tool_call_id: old(self).calls()[old(self).done_calls as int].id,
                    content: payload@,
                },
            ),
            final(self).calls() == old(self).calls(),
            final(self).done_calls == old(self).done_calls + 1,
            final(self).aborted == aborted,
            final(self).batch_start == old(self).batch_start,
            aborted ==> final(self).phase is Terminal,
            !aborted && old(self).done_calls + 1 == old(self).calls().len() ==> final(self).phase is AwaitingRequest,
            !aborted && old(self).done_calls + 1 < old(self).calls().len() ==> final(self).phase is ExecutingTools,
    {
        let id: String = self.batch[self.done_calls].id.clone();
        self.history.push(Message::ToolResult { tool_call_id: id, content: payload });
        self.done_calls = self.done_calls + 1;
        self.aborted = aborted;
        self.phase = if aborted {
            Phase::Terminal
        } else if self.done_calls == self.batch.len() {
            Phase::AwaitingRequest
        } else {
            Phase::ExecutingTools
        };
        proof {
            assert(self.hist() =~= old(self).hist().push(
                MessageView::ToolResult {
                    tool_call_id: old(self).calls()[old(self).done_calls as int].id,
                    content: payload@,
                },
            ));
        }
    }
}

/// The interactive shell session: the conversation history it has adopted so
/// far, and the two user-settable flags read on every invocation.
pub struct ShellSession {
    /// Adopted conversation history; starts with the system message.
    pub history: Vec<Message>,
    /// Skip the confirmation gate before running commands.
    pub yes: bool,
    /// Suppress live echoing of command output.
    pub quiet: bool,
}

impl ShellSession {
    /// The views of the messages of the adopted history.
    pub open spec fn hist(self) -> Seq<MessageView> {
        msgs_view(self.history@)
    }

    /// Well-formedness: the history starts with the system message.
    pub open spec fn wf(self) -> bool {
        self.hist().len() > 0 && self.hist()[0] is System
    }

    /// A fresh session: the history holds exactly the one system message with
    /// the operating instructions, and both flags are off.
    pub fn new(system_prompt: String) -> (s: Self)
        ensures
            s.wf(),
            s.hist() == seq![MessageView::System { content: system_prompt@ }],
            s.yes == false,
            s.quiet == false,
    {
        let mut history: Vec<Message> = Vec::new();
        history.push(Message::System { content: system_prompt });
        let s = ShellSession { history, yes: false, quiet: false };
        proof {
            assert(s.hist() =~= seq![MessageView::System { content: system_prompt@ }]);
        }
        s
    }

    /// Opens a turn for one user prompt: the turn works on a copy of the
    /// session history with the user message appended.
    pub fn begin_turn(&self, prompt: String) -> (t: Turn)
        requires
            self.wf(),
        ensures
            t.wf(),
            t.phase is AwaitingRequest,
            t.aborted == false,
            t.calls().len() == 0,
            t.hist() == self.hist().push(MessageView::User { content: prompt@ }),
    {
        let mut history: Vec<Message> = self.history.clone();
        proof {
            assert(msgs_view(history@) =~= self.hist());
        }
        history.push(Message::User { content: prompt });
        let t = Turn {
            history,
            batch: Vec::new(),
            done_calls: 0,
            phase: Phase::AwaitingRequest,
            aborted: false,
            batch_start: Ghost(0),
        };
        proof {
            assert(t.hist() =~= self.hist().push(MessageView::User { content: prompt@ }));
        }
        t
    }

    /// Adopts a finished turn's history as the session history.
    pub fn finish_turn(&mut self, t: Turn)
        requires
            t.wf(),
            t.phase is Terminal,
        ensures
            final(self).wf(),
            final(self).hist() == t.hist(),
            final(self).yes == old(self).yes,
            final(self).quiet == old(self).quiet,
    {
        self.history = t.history;
    }
}

/// Law: within one batch, the history holds exactly one tool-result message
/// for each tool call executed so far — never more, never fewer — and the
/// results stand in batch order, each carrying its call's id.
pub proof fn lemma_one_result_per_executed_call(t: Turn)
    requires
        t.wf(),
        t.calls().len() > 0,
    ensures
        count_tool_results(t.hist().subrange(t.batch_start@ + 1, t.hist().len() as int))
            == t.done_calls,
        forall|j: int|
            0 <= j < t.done_calls ==> ((#[trigger] t.hist()[t.batch_start@ + 1
                + j]) matches MessageView::ToolResult { tool_call_id, .. } && tool_call_id
                == t.calls()[j].id),
{
    let results = t.hist().subrange(t.batch_start@ + 1, t.hist().len() as int);
    assert forall|i: int| 0 <= i < results.len() implies (#[trigger] results[i]) is ToolResult by {
        assert(t.hist()[t.batch_start@ + 1 + i] matches MessageView::ToolResult { .. });
        assert(results[i] == t.hist()[t.batch_start@ + 1 + i]);
    }
    lemma_count_all_tool_results(results);
}

proof fn lemma_count_all_tool_results(s: Seq<MessageView>)
    requires
        forall|i: int| 0 <= i < s.len() ==> #[trigger] s[i] is ToolResult,
    ensures
        count_tool_results(s) == s.len(),
    decreases s.len(),
{
    if s.len() > 0 {
        lemma_count_all_tool_results(s.drop_last());
    }
}

/// Law: an abort short-circuits the batch. The aborted call's own result —
/// carrying its id — is in the history, the turn is terminal, so no further
/// call of the batch is executed and no follow-up request is sent, and the
/// number of results stays at the number of calls executed.
pub proof fn lemma_abort_short_circuits(t: Turn)
    requires
        t.wf(),
        t.aborted,
    ensures
        t.phase is Terminal,
        t.calls().len() > 0,
        has_tool_result_for(t.hist(), t.calls()[t.done_calls - 1].id),
        count_tool_results(t.hist().subrange(t.batch_start@ + 1, t.hist().len() as int))
            == t.done_calls,
{
    let i = t.batch_start@ + 1 + (t.done_calls - 1);
    assert(t.hist()[i] matches MessageView::ToolResult { tool_call_id, .. } && tool_call_id
        == t.calls()[t.done_calls - 1].id);
    lemma_one_result_per_executed_call(t);
}

/// Law: when a follow-up request is about to be sent after a batch, every
/// call of the batch was executed and every call's id has a tool-result
/// message in the history — the request never goes out with a result missing.
pub proof fn lemma_followup_has_all_results(t: Turn)
    requires
        t.wf(),
        t.phase is AwaitingRequest,
        t.calls().len() > 0,
    ensures
        t.done_calls == t.calls().len(),
        forall|j: int| 0 <= j < t.calls().len() ==> has_tool_result_for(t.hist(), t.calls()[j].id),
{
    assert forall|j: int| 0 <= j < t.calls().len() implies has_tool_result_for(
        t.hist(),
        t.calls()[j].id,
    ) by {
        let i = t.batch_start@ + 1 + j;
        assert(t.hist()[i] matches MessageView::ToolResult { tool_call_id, .. } && tool_call_id
            == t.calls()[j].id);
    }
}

} // verus!
