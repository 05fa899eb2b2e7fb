//! The command resolver: from an agent's name to the command that runs it.
//!
//! The table is fixed. It is keyed by the agent's name and by whether the
//! run is interactive, and it places the prompt among the arguments.

use crate::text::text_eq;
use vstd::prelude::*;

verus! {

/// A resolved command as a mathematical value.
pub struct CommandModel {
    pub program: Seq<char>,
    pub args: Seq<Seq<char>>,
}

/// The name of an executable and the ordered arguments to launch it with.
#[derive(Debug, PartialEq, Eq)]
pub struct CommandSpec {
    program: String,
    args: Vec<String>,
}

/// The error of resolving a name that the table does not hold. It carries
/// the name as it was given.
#[derive(Debug, PartialEq, Eq)]
pub struct UnknownAgent {
    pub agent: String,
}

/// The table. `None` for a name that it does not hold.
pub open spec fn command_for(agent: Seq<char>, prompt: Seq<char>, interactive: bool) -> Option<
    CommandModel,
> {
    if agent == "gemini"@ {
        Some(
            CommandModel {
                program: "gemini"@,
                args: if interactive {
                    seq!["-i"@, prompt, "-y"@]
                } else {
                    seq![prompt, "-y"@]
                },
            },
        )
    } else if agent == "qwen"@ {
        Some(CommandModel { program: "qwen"@, args: seq![prompt, "-y"@] })
    } else if agent == "codex"@ {
        Some(
            CommandModel {
                program: "codex"@,
                args: if interactive {
                    seq![prompt, "--full-auto"@]
                } else {
                    seq!["exec"@, prompt, "--full-auto"@]
                },
            },
        )
    } else {
        None
    }
}

/// Whether the table holds a name.
pub open spec fn is_known(agent: Seq<char>) -> bool {
    agent == "gemini"@ || agent == "qwen"@ || agent == "codex"@
}

/// The diagnostic for a name that the table does not hold.
pub open spec fn unknown_agent_text(agent: Seq<char>) -> Seq<char> {
    "Unknown agent: "@ + agent
}

impl View for CommandSpec {
    type V = CommandModel;

    closed spec fn view(&self) -> CommandModel {
        CommandModel { program: self.program@, args: self.args.deep_view() }
    }
}

impl CommandSpec {
    /// The name of the executable.
    pub fn program(&self) -> (program: &str)
        ensures
            program@ == self@.program,
    {
        self.program.as_str()
    }

    /// The arguments, in order.
    pub fn args(&self) -> (args: &Vec<String>)
        ensures
            args.deep_view() == self@.args,
    {
        &self.args
    }

    /// The executable's name and the arguments, as owned values.
    pub fn into_parts(self) -> (parts: (String, Vec<String>))
        ensures
            parts.0@ == self@.program,
            parts.1.deep_view() == self@.args,
    {
        (self.program, self.args)
    }
}

impl UnknownAgent {
    /// The diagnostic that names the agent.
    pub fn message(&self) -> (text: String)
        ensures
            text@ == unknown_agent_text(self.agent@),
    {
        String::from_str("Unknown agent: ").concat(self.agent.as_str())
    }
}

/// Resolves an agent's name to its command. The result depends on nothing
/// but the three arguments.
pub fn resolve(agent: &str, prompt: &str, interactive: bool) -> (res: Result<
    CommandSpec,
    UnknownAgent,
>)
    ensures
        match command_for(agent@, prompt@, interactive) {
            Some(cmd) => res matches Ok(c) && c@ == cmd,
            None => res matches Err(e) && e.agent@ == agent@,
        },
        res is Ok <==> is_known(agent@),
{
    let mut args: Vec<String> = Vec::new();
    let program = if text_eq(agent, "gemini") {
        if interactive {
            args.push(String::from_str("-i"));
        }
        args.push(String::from_str(prompt));
        args.push(String::from_str("-y"));
        "gemini"
    } else if text_eq(agent, "qwen") {
        args.push(String::from_str(prompt));
        args.push(String::from_str("-y"));
        "qwen"
    } else if text_eq(agent, "codex") {
        if !interactive {
            args.push(String::from_str("exec"));
        }
        args.push(String::from_str(prompt));
        args.push(String::from_str("--full-auto"));
        "codex"
    } else {
        return Err(UnknownAgent { agent: String::from_str(agent) });
    };
    let command = CommandSpec { program: String::from_str(program), args };
    assert(command@.args =~= command_for(agent@, prompt@, interactive)->0.args);
    Ok(command)
}

/// Resolves an agent's name to the executable's name and its arguments, or
/// to the diagnostic for an unknown name.
pub fn build_command(agent: &str, prompt: &str, interactive: bool) -> (res: Result<
    (String, Vec<String>),
    String,
>)
    ensures
        match command_for(agent@, prompt@, interactive) {
            Some(cmd) => res matches Ok(parts) && parts.0@ == cmd.program && parts.1.deep_view()
                == cmd.args,
            None => res matches Err(text) && text@ == unknown_agent_text(agent@),
        },
        res is Ok <==> is_known(agent@),
{
    match resolve(agent, prompt, interactive) {
        Ok(command) => Ok(command.into_parts()),
        Err(unknown) => Err(unknown.message()),
    }
}

} // verus!
