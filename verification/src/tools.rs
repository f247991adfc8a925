use crate::builtins::{is_built_in_command, is_builtin_words, shell_split};
use crate::messages::opt_text_view;
use crate::runner::{build_error_payload, error_payload};
use crate::text::{str_eq, trim_spec, trim_str};
use vstd::prelude::*;

verus! {

/// One parameter of a tool, as described to the completion service.
#[derive(Clone, Copy)]
pub struct Param {
    pub name: &'static str,
    pub ty: &'static str,
    pub desc: &'static str,
    pub required: bool,
}

/// Mathematical image of a `Param`.
pub struct ParamView {
    pub name: Seq<char>,
    pub ty: Seq<char>,
    pub desc: Seq<char>,
    pub required: bool,
}

impl View for Param {
    type V = ParamView;

    open spec fn view(&self) -> ParamView {
        ParamView { name: self.name@, ty: self.ty@, desc: self.desc@, required: self.required }
    }
}

impl Param {
    /// Describes one parameter: its name, its primitive type tag, whether it
    /// is required, and its human-readable description.
    pub fn new(name: &'static str, ty: &'static str, required: bool, desc: &'static str) -> (p:
        Self)
        ensures
            p@ == (ParamView { name: name@, ty: ty@, desc: desc@, required }),
    {
        Self { name, ty, desc, required }
    }
}

/// The behavior behind a registered tool. The registry is a closed set of
/// variants: adding a tool means adding a variant, not changing the engine.
#[derive(Clone, Copy, PartialEq, Eq, Structural, Debug)]
pub enum ToolKind {
    /// Run a one-line shell command on the host.
    RunCommand,
}

/// A registry entry: what the tool is called, how it is described to the
/// completion service, which parameters it takes, and what it does.
pub struct GPTFunction {
    pub name: &'static str,
    pub desc: &'static str,
    pub params: Vec<Param>,
    pub kind: ToolKind,
}

/// Mathematical image of a `GPTFunction`.
pub struct GPTFunctionView {
    pub name: Seq<char>,
    pub desc: Seq<char>,
    pub params: Seq<ParamView>,
    pub kind: ToolKind,
}

impl View for GPTFunction {
    type V = GPTFunctionView;

    open spec fn view(&self) -> GPTFunctionView {
        GPTFunctionView {
            name: self.name@,
            desc: self.desc@,
            params: self.params@.map_values(|p: Param| p@),
            kind: self.kind,
        }
    }
}

/// The schema entry for one tool, shaped as the completion service wants
/// it: name, description, the ordered parameter list, and the names of the
/// parameters that are required.
pub struct FunctionSchema {
    pub name: String,
    pub description: String,
    pub params: Vec<Param>,
    pub required: Vec<String>,
}

/// Mathematical image of a `FunctionSchema`.
pub struct FunctionSchemaView {
    pub name: Seq<char>,
    pub description: Seq<char>,
    pub params: Seq<ParamView>,
    pub required: Seq<Seq<char>>,
}

impl View for FunctionSchema {
    type V = FunctionSchemaView;

    open spec fn view(&self) -> FunctionSchemaView {
        FunctionSchemaView {
            name: self.name@,
            description: self.description@,
            params: self.params@.map_values(|p: Param| p@),
            required: self.required@.map_values(|s: String| s@),
        }
    }
}

/// The names of the required parameters, in parameter order.
pub open spec fn required_names(params: Seq<ParamView>) -> Seq<Seq<char>>
    decreases params.len(),
{
    if params.len() == 0 {
        Seq::empty()
    } else {
        let rest = required_names(params.drop_last());
        if params.last().required {
            rest + seq![params.last().name]
        } else {
            rest
        }
    }
}

/// The schema entry that describes a tool.
pub open spec fn schema_spec(t: GPTFunctionView) -> FunctionSchemaView {
    FunctionSchemaView {
        name: t.name,
        description: t.desc,
        params: t.params,
        required: required_names(t.params),
    }
}

impl GPTFunction {
    /// Builds this tool's schema entry: the parameter list carries over in
    /// order, and `required` holds exactly the names of the parameters whose
    /// required flag is set, in the same order.
    pub fn get_info(&self) -> (r: FunctionSchema)
        ensures
            r@ == schema_spec(self@),
    {
        let ghost pv = self.params@.map_values(|p: Param| p@);
        let mut required: Vec<String> = Vec::new();
        let mut i: usize = 0;
        while i < self.params.len()
            invariant
                i <= self.params@.len(),
                pv == self.params@.map_values(|p: Param| p@),
                required@.map_values(|s: String| s@) == required_names(pv.subrange(0, i as int)),
            decreases self.params@.len() - i,
        {
            if self.params[i].required {
                required.push(String::from_str(self.params[i].name));
            }
            proof {
                let prefix = pv.subrange(0, i + 1);
                assert(prefix.drop_last() =~= pv.subrange(0, i as int));
                assert(prefix.last() == pv[i as int]);
                assert(required@.map_values(|s: String| s@) =~= required_names(prefix));
            }
            i = i + 1;
        }
        proof {
            assert(pv.subrange(0, self.params@.len() as int) =~= pv);
        }
        let params = self.params.clone();
        proof {
            assert(params@.map_values(|p: Param| p@) =~= pv);
        }
        FunctionSchema {
            name: String::from_str(self.name),
            description: String::from_str(self.desc),
            params,
            required,
        }
    }
}

/// A tool invocation ends in user abort or in a result payload.
pub enum ToolError {
    /// The user declined the confirmation gate.
    Aborted,
}

/// The process-wide tool registry, read-only after initialization.
pub struct Tools {
    pub tools: Vec<GPTFunction>,
}

impl Tools {
    /// Whether a tool with this name is registered.
    pub open spec fn has_tool(self, name: Seq<char>) -> bool {
        exists|i: int| 0 <= i < self.tools@.len() && (#[trigger] self.tools@[i])@.name == name
    }

    /// A registry over the given tools.
    pub fn new(tools: Vec<GPTFunction>) -> (t: Self)
        ensures
            t.tools == tools,
    {
        Self { tools }
    }

    /// The schema entries of all registered tools, in registry order, for
    /// the completion request.
    pub fn get_info(&self) -> (r: Vec<FunctionSchema>)
        ensures
            r@.len() == self.tools@.len(),
            forall|i: int|
                0 <= i < r@.len() ==> (#[trigger] r@[i])@ == schema_spec(self.tools@[i]@),
    {
        let mut r: Vec<FunctionSchema> = Vec::new();
        let mut i: usize = 0;
        while i < self.tools.len()
            invariant
                i <= self.tools@.len(),
                r@.len() == i,
                forall|j: int|
                    0 <= j < i ==> (#[trigger] r@[j])@ == schema_spec(self.tools@[j]@),
            decreases self.tools@.len() - i,
        {
            r.push(self.tools[i].get_info());
            i = i + 1;
        }
        r
    }

    /// Decides at run time whether a tool with this name is registered, so
    /// that a caller can test `run`'s precondition before invoking it.
    pub fn has_named_tool(&self, name: &str) -> (r: bool)
        ensures
            r == self.has_tool(name@),
    {
        let n = self.tools.len();
        let mut i: usize = 0;
        while i < n
            invariant
                n == self.tools@.len(),
                i <= n,
                forall|j: int| 0 <= j < i ==> (#[trigger] self.tools@[j])@.name != name@,
            decreases n - i,
        {
            if str_eq(self.tools[i].name, name) {
                proof {
                    assert(self.tools@[i as int]@.name == name@);
                }
                return true;
            }
            i = i + 1;
        }
        false
    }

    /// Resolves a tool call as far as the library can on its own: looks the
    /// tool up by name and decides its first step. A name that is not
    /// registered is a broken invariant — the remote service may only
    /// reference registered names — so it is ruled out, not reported.
    pub fn run(&self, name: &str, arguments: &str, yes: bool) -> (step: InvokeStep)
        requires
            self.has_tool(name@),
        ensures
            step@ == run_command_step(arguments@, yes),
    {
        let n = self.tools.len();
        let mut i: usize = 0;
        while i < n
            invariant
                n == self.tools@.len(),
                i <= n,
                self.has_tool(name@),
                forall|j: int| 0 <= j < i ==> (#[trigger] self.tools@[j])@.name != name@,
            decreases n - i,
        {
            if str_eq(self.tools[i].name, name) {
                match self.tools[i].kind {
                    ToolKind::RunCommand => {
                        return run_command_plan(arguments, yes);
                    },
                }
            }
            i = i + 1;
        }
        proof {
            assert(false);
        }
        vstd::pervasive::unreached()
    }
}

/// The arguments the shell tool reads from its raw payload.
pub struct ToolArguments {
    /// The command text, when the payload carried one.
    pub command: Option<String>,
}

/// What the shell tool finds in its raw JSON argument payload: the value of
/// the string field `command`, when the payload is a JSON object carrying
/// one.
pub uninterp spec fn command_field(raw: Seq<char>) -> Option<Seq<char>>;

/// Relies on `serde_json::from_str`, `serde_json::Value::get` and
/// `serde_json::Value::as_str`: parses the raw argument payload and picks
/// out the string field `command`; if the payload is not valid JSON, not an
/// object with that field, or the field is not a string, there is none.
#[verifier::external_body]
fn parse_tool_arguments(raw: &str) -> (r: ToolArguments)
    ensures
        opt_text_view(r.command) == command_field(raw@),
{
    let parsed: Option<serde_json::Value> = serde_json::from_str(raw).ok();
    let command = match parsed {
        Some(value) => match value.get("command") {
            Some(field) => match field.as_str() {
                Some(text) => Some(text.to_string()),
                None => None,
            },
            None => None,
        },
        None => None,
    };
    ToolArguments { command }
}

/// The next step of one tool invocation. The library decides; the shell
/// around it performs the step and reports back.
pub enum InvokeStep {
    /// The invocation is decided: hand this payload back as the tool
    /// result, aborting the batch if the flag says so.
    Reply { payload: String, aborted: bool },
    /// The command is built in: run it against the host process itself and
    /// report the outcome with `builtin_result_payload`. This path never
    /// reaches the confirmation gate.
    RunBuiltin { command: String },
    /// Put the command to the user at the confirmation gate, then carry on
    /// with `after_gate`.
    Confirm { command: String },
    /// Spawn the command through the host shell and report the outcome with
    /// `execution_result_payload`.
    Execute { command: String },
}

/// Mathematical image of an `InvokeStep`.
pub enum InvokeStepView {
    Reply { payload: Seq<char>, aborted: bool },
    RunBuiltin { command: Seq<char> },
    Confirm { command: Seq<char> },
    Execute { command: Seq<char> },
}

impl View for InvokeStep {
    type V = InvokeStepView;

    open spec fn view(&self) -> InvokeStepView {
        match self {
            InvokeStep::Reply { payload, aborted } => InvokeStepView::Reply {
                payload: payload@,
                aborted: *aborted,
            },
            InvokeStep::RunBuiltin { command } => InvokeStepView::RunBuiltin {
                command: command@,
            },
            InvokeStep::Confirm { command } => InvokeStepView::Confirm { command: command@ },
            InvokeStep::Execute { command } => InvokeStepView::Execute { command: command@ },
        }
    }
}

/// The error reported to the model when the argument payload carries no
/// usable command. Malformed arguments are the model's fault and must stay
/// recoverable, so they become an error payload, never an abort.
pub open spec fn missing_command_text() -> Seq<char> {
    "Invalid arguments: missing string parameter 'command'"@
}

/// The first step of the shell tool on a raw argument payload: no usable
/// command text is an error payload; a built-in command runs in-process
/// and is never put to the user; anything else needs confirmation unless
/// `yes` already grants it.
pub open spec fn run_command_step(raw: Seq<char>, yes: bool) -> InvokeStepView {
    match command_field(raw) {
        None => InvokeStepView::Reply { payload: error_payload(missing_command_text()), aborted: false },
        Some(text) => {
            let command = trim_spec(text);
            if shell_split(command) matches Some(words) && is_builtin_words(words) {
                InvokeStepView::RunBuiltin { command }
            } else if !yes {
                InvokeStepView::Confirm { command }
            } else {
                InvokeStepView::Execute { command }
            }
        },
    }
}

/// Decides the first step of the shell tool, as `run_command_step` says.
fn run_command_plan(arguments: &str, yes: bool) -> (step: InvokeStep)
    ensures
        step@ == run_command_step(arguments@, yes),
{
    let args = parse_tool_arguments(arguments);
    match args.command {
        None => InvokeStep::Reply {
            payload: build_error_payload("Invalid arguments: missing string parameter 'command'"),
            aborted: false,
        },
        Some(text) => {
            let command = String::from_str(trim_str(text.as_str()));
            if is_built_in_command(command.as_str()) {
                InvokeStep::RunBuiltin { command }
            } else if !yes {
                InvokeStep::Confirm { command }
            } else {
                InvokeStep::Execute { command }
            }
        },
    }
}

/// The cancellation notice handed back to the model when the user declines
/// a command.
pub open spec fn cancel_text() -> Seq<char> {
    "User cancelled the command. Task should be considered as failed and finished early."@
}

/// Wraps a tool handler's outcome as the pair the turn records: the payload
/// itself on success, and on an abort the cancellation payload with the
/// abort flag set.
pub fn wrap_tool_outcome(outcome: Result<String, ToolError>) -> (r: (String, bool))
    ensures
        outcome matches Ok(payload) ==> r.0@ == payload@ && r.1 == false,
        outcome is Err ==> r.0@ == error_payload(cancel_text()) && r.1 == true,
{
    match outcome {
        Ok(payload) => (payload, false),
        Err(ToolError::Aborted) => (
            build_error_payload(
                "User cancelled the command. Task should be considered as failed and finished early.",
            ),
            true,
        ),
    }
}

/// Carries the invocation on once the user has answered the confirmation
/// gate: consent means the command executes; refusal means the cancellation
/// payload comes back with the abort flag set.
pub fn after_gate(confirmed: bool, command: String) -> (step: InvokeStep)
    ensures
        confirmed ==> step@ == (InvokeStepView::Execute { command: command@ }),
        !confirmed ==> step@ == (InvokeStepView::Reply {
            payload: error_payload(cancel_text()),
            aborted: true,
        }),
{
    if confirmed {
        InvokeStep::Execute { command }
    } else {
        let (payload, aborted) = wrap_tool_outcome(Err(ToolError::Aborted));
        InvokeStep::Reply { payload, aborted }
    }
}

/// The default registry: the one shell tool, `run_command`, taking the
/// required string parameter `command`.
pub fn default_tools() -> (t: Tools)
    ensures
        t.tools@.len() == 1,
        t.tools@[0]@.name == "run_command"@,
        t.tools@[0]@.desc == "Run a one-liner bash command"@,
        t.tools@[0]@.kind == ToolKind::RunCommand,
        t.tools@[0]@.params.len() == 1,
        t.tools@[0]@.params[0].name == "command"@,
        t.tools@[0]@.params[0].ty == "string"@,
        t.tools@[0]@.params[0].required,
        t.has_tool("run_command"@),
{
    let mut params: Vec<Param> = Vec::new();
    params.push(
        Param::new(
            "command",
            "string",
            true,
            "The one-liner bash command to execute. This will be directly sent to `bash -c ...` so be careful with the quotes escaping!",
        ),
    );
    let mut tools: Vec<GPTFunction> = Vec::new();
    tools.push(
        GPTFunction {
            name: "run_command",
            desc: "Run a one-liner bash command",
            params,
            kind: ToolKind::RunCommand,
        },
    );
    let t = Tools::new(tools);
    proof {
        assert((#[trigger] t.tools@[0])@.name == "run_command"@);
    }
    t
}

} // verus!
