//! Requests to run a tool, and what running one gave.

use crate::json::{Json, JsonValue};
use crate::text::{
    chars_of, eq_ignore_ascii_case, eq_ignoring_ascii_case, slice_chars, str_eq, trim_bounds,
    trimmed,
};
use vstd::prelude::*;
use vstd::string::StringExecFns;

verus! {

/// Model of a [`ToolRequest`].
pub ghost struct ToolRequestView {
    pub tool: Seq<char>,
    pub params: JsonValue,
}

/// A tool invocation that the model asked for.
#[derive(Debug)]
pub struct ToolRequest {
    /// The tool's name, such as `shell`.
    pub tool: String,
    /// The parameters: every member of the model's JSON object but `tool`.
    pub params: Json,
}

impl View for ToolRequest {
    type V = ToolRequestView;

    open spec fn view(&self) -> ToolRequestView {
        ToolRequestView { tool: self.tool@, params: self.params@ }
    }
}

impl Clone for ToolRequest {
    fn clone(&self) -> (r: Self)
        ensures
            r@ == self@,
    {
        ToolRequest { tool: self.tool.clone(), params: self.params.clone() }
    }
}

/// Model of a [`ToolResult`].
pub ghost struct ToolResultView {
    pub success: bool,
    pub output: Seq<char>,
    pub error: Option<Seq<char>>,
}

impl ToolResultView {
    /// A success carries no error; a failure carries no output.
    pub open spec fn wf(self) -> bool {
        &&& self.success ==> self.error is None
        &&& !self.success ==> self.output.len() == 0
    }
}

/// The outcome of running a tool.
#[derive(Debug)]
pub struct ToolResult {
    pub success: bool,
    pub output: String,
    pub error: Option<String>,
}

impl View for ToolResult {
    type V = ToolResultView;

    open spec fn view(&self) -> ToolResultView {
        ToolResultView {
            success: self.success,
            output: self.output@,
            error: match self.error {
                Some(e) => Some(e@),
                None => None,
            },
        }
    }
}

impl Clone for ToolResult {
    fn clone(&self) -> (r: Self)
        ensures
            r@ == self@,
    {
        let error = match &self.error {
            Some(e) => Some(e.clone()),
            None => None,
        };
        ToolResult { success: self.success, output: self.output.clone(), error }
    }
}

impl ToolResult {
    /// A successful outcome with the given output.
    pub fn success(output: &str) -> (r: Self)
        ensures
            r@ == (ToolResultView { success: true, output: output@, error: None }),
            r@.wf(),
    {
        ToolResult { success: true, output: output.to_owned(), error: None }
    }

    /// A failed outcome with the given error and no output.
    pub fn failure(error: &str) -> (r: Self)
        ensures
            r@ == (ToolResultView { success: false, output: Seq::empty(), error: Some(error@) }),
            r@.wf(),
    {
        ToolResult { success: false, output: String::new(), error: Some(error.to_owned()) }
    }
}

/// Model of a [`ToolPlan`].
pub ghost enum ToolPlanView {
    Shell { command: Seq<char> },
    MissingCommand,
    Unknown { result: ToolResultView },
}

/// What a request comes to before anything is run.
#[derive(Debug)]
pub enum ToolPlan {
    /// Run this command in the shell.
    Shell { command: String },
    /// The shell was asked for, without a command.
    MissingCommand,
    /// No such tool: the failed outcome to report.
    Unknown { result: ToolResult },
}

impl View for ToolPlan {
    type V = ToolPlanView;

    open spec fn view(&self) -> ToolPlanView {
        match self {
            ToolPlan::Shell { command } => ToolPlanView::Shell { command: command@ },
            ToolPlan::MissingCommand => ToolPlanView::MissingCommand,
            ToolPlan::Unknown { result } => ToolPlanView::Unknown { result: result@ },
        }
    }
}

/// What a request comes to: the shell's command where the tool is
/// `shell` and parameter `command` is a string; a failed outcome for
/// any other tool.
pub open spec fn plan_for(request: ToolRequestView) -> ToolPlanView {
    if request.tool == "shell"@ {
        match request.params.text_member("command"@) {
            Some(command) => ToolPlanView::Shell { command },
            None => ToolPlanView::MissingCommand,
        }
    } else {
        ToolPlanView::Unknown {
            result: ToolResultView {
                success: false,
                output: Seq::empty(),
                error: Some("Unknown tool: "@ + request.tool),
            },
        }
    }
}

/// Decides what a request comes to.
pub fn plan_tool(request: &ToolRequest) -> (r: ToolPlan)
    ensures
        r@ == plan_for(request@),
{
    if str_eq(request.tool.as_str(), "shell") {
        match request.params.get_str("command") {
            Some(command) => ToolPlan::Shell { command: command.to_owned() },
            None => ToolPlan::MissingCommand,
        }
    } else {
        let message = String::from_str("Unknown tool: ").concat(request.tool.as_str());
        ToolPlan::Unknown { result: ToolResult::failure(message.as_str()) }
    }
}

/// A reply approves a command where it is `y`, in either case, with
/// whitespace around it at most.
pub open spec fn approves(reply: Seq<char>) -> bool {
    eq_ignore_ascii_case(trimmed(reply), "y"@)
}

/// Whether the user's reply approves a command.
pub fn is_approval(reply: &str) -> (r: bool)
    ensures
        r == approves(reply@),
{
    let cs = chars_of(reply);
    let (a, b) = trim_bounds(&cs);
    let answer = slice_chars(&cs, a, b);
    let yes = chars_of("y");
    eq_ignoring_ascii_case(&answer, &yes)
}

/// The outcome of a command that ran: its output where it succeeded;
/// else what it wrote as error, or its status where it wrote none.
pub open spec fn command_outcome(
    succeeded: bool,
    stdout: Seq<char>,
    stderr: Seq<char>,
    status: Seq<char>,
) -> ToolResultView {
    if succeeded {
        ToolResultView { success: true, output: stdout, error: None }
    } else if stderr.len() > 0 {
        ToolResultView { success: false, output: Seq::empty(), error: Some(stderr) }
    } else {
        ToolResultView {
            success: false,
            output: Seq::empty(),
            error: Some("Command exited with status "@ + status),
        }
    }
}

/// The outcome of a command that ran.
pub fn shell_result(succeeded: bool, stdout: &str, stderr: &str, status: &str) -> (r: ToolResult)
    ensures
        r@ == command_outcome(succeeded, stdout@, stderr@, status@),
        r@.wf(),
{
    if succeeded {
        ToolResult::success(stdout)
    } else if !stderr.is_empty() {
        ToolResult::failure(stderr)
    } else {
        let message = String::from_str("Command exited with status ").concat(status);
        ToolResult::failure(message.as_str())
    }
}


} // verus!
