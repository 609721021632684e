//! The decision on one command, and on one invocation of the hook.

use crate::config::{check_config, CompiledConfig};
use crate::patterns::{check_command, CheckResult, DenyPattern};
use crate::rules::{decide_spec, ConfigModel, RuleModel, Verdict};
use crate::text::same_text;
use vstd::prelude::*;

verus! {

/// The name of the tool that runs shell commands.
pub const SHELL_TOOL: &'static str = "Bash";

/// The exit code that allows the command.
pub const EXIT_ALLOW: i32 = 0;

/// The exit code that denies the command.
pub const EXIT_DENY: i32 = 2;

/// What one invocation hands over: the name of the tool about to run, and
/// the command it is to run, where the input holds one as text.
#[derive(Debug)]
pub struct HookInput {
    pub tool_name: String,
    pub command: Option<String>,
}

/// An invocation as the policy sees it.
pub struct HookModel {
    pub tool_name: Seq<char>,
    pub command: Option<Seq<char>>,
}

impl View for HookInput {
    type V = HookModel;

    open spec fn view(&self) -> HookModel {
        HookModel {
            tool_name: self.tool_name@,
            command: match self.command {
                Some(text) => Some(text@),
                None => None,
            },
        }
    }
}

/// What was handed over, as the policy sees it. `None` stands for input
/// that could not be read as an invocation.
pub open spec fn input_model(input: Option<&HookInput>) -> Option<HookModel> {
    match input {
        Some(hook) => Some(hook@),
        None => None,
    }
}

/// The command that an invocation asks about: the text under `command`
/// where the tool is the one that runs shell commands, and else none.
pub open spec fn command_of(input: Option<HookModel>) -> Option<Seq<char>> {
    match input {
        Some(hook) => if hook.tool_name == SHELL_TOOL@ {
            hook.command
        } else {
            None
        },
        None => None,
    }
}

/// The verdict on one invocation. Input that could not be read, another
/// tool, or no command: each passes. Anything else is a command to decide.
pub open spec fn evaluate_spec(
    input: Option<HookModel>,
    builtin: Seq<RuleModel>,
    user: ConfigModel,
) -> Verdict {
    match command_of(input) {
        Some(command) => decide_spec(builtin, user, command),
        None => Verdict::Allow,
    }
}

/// The exit code of the verdict.
pub open spec fn exit_code_spec(verdict: Verdict) -> int {
    match verdict {
        Verdict::Allow => 0,
        Verdict::Deny(_) => 2,
    }
}

/// The line that goes with the verdict, none when the command passes.
pub open spec fn diagnostic_spec(verdict: Verdict) -> Option<Seq<char>> {
    match verdict {
        Verdict::Allow => None,
        Verdict::Deny(reason) => Some("Blocked: "@ + reason),
    }
}

/// Decides on a command. The built-in rules come first and no user rule
/// overrides them; the user's rule set is asked only where they pass.
pub fn decide(command: &str, builtin: &[DenyPattern], user: &CompiledConfig) -> (verdict:
    CheckResult)
    ensures
        verdict@ == decide_spec(builtin.deep_view(), user@, command@),
{
    if let CheckResult::Deny(reason) = check_command(command, builtin) {
        return CheckResult::Deny(reason);
    }
    match check_config(command, user) {
        Ok(_) => CheckResult::Allow,
        Err(reason) => CheckResult::Deny(reason),
    }
}

/// The command to decide on, if the invocation holds one. `None` as input
/// stands for input that could not be read as an invocation.
pub fn command_to_check<'a>(input: Option<&'a HookInput>) -> (command: Option<&'a str>)
    ensures
        match command {
            Some(text) => command_of(input_model(input)) == Some(text@),
            None => command_of(input_model(input)) is None,
        },
{
    match input {
        Some(hook) => {
            if !same_text(hook.tool_name.as_str(), SHELL_TOOL) {
                return None;
            }
            match &hook.command {
                Some(command) => Some(command.as_str()),
                None => None,
            }
        },
        None => None,
    }
}

/// Decides on one invocation. `None` as input stands for input that could
/// not be read as an invocation.
pub fn evaluate(input: Option<&HookInput>, builtin: &[DenyPattern], user: &CompiledConfig) -> (verdict:
    CheckResult)
    ensures
        verdict@ == evaluate_spec(input_model(input), builtin.deep_view(), user@),
{
    match command_to_check(input) {
        Some(command) => decide(command, builtin, user),
        None => CheckResult::Allow,
    }
}

/// The exit code of the verdict, 0 to allow and 2 to deny.
pub fn exit_code(verdict: &CheckResult) -> (code: i32)
    ensures
        code == exit_code_spec(verdict@),
{
    match verdict {
        CheckResult::Allow => EXIT_ALLOW,
        CheckResult::Deny(_) => EXIT_DENY,
    }
}

/// The line to write with the verdict. It is `Blocked: ` and the reason for
/// a denial, nothing for a command that passes.
pub fn diagnostic_line(verdict: &CheckResult) -> (line: Option<String>)
    ensures
        match line {
            Some(text) => diagnostic_spec(verdict@) == Some(text@),
            None => diagnostic_spec(verdict@) is None,
        },
{
    match verdict {
        CheckResult::Allow => None,
        CheckResult::Deny(reason) => {
            let mut text = String::from_str("Blocked: ");
            text.append(reason.as_str());
            Some(text)
        },
    }
}

} // verus!
