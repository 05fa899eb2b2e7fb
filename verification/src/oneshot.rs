//! The one-shot path: a command is run to completion and answered once.
//!
//! Running the process is the caller's part. This module says which command
//! to run, what text the captured output makes, and which reply goes back.

use crate::command::{command_for, resolve, unknown_agent_text, CommandSpec, UnknownAgent};
use crate::text::{decode_lossy, lossy_text};
use vstd::prelude::*;
use vstd::utf8::{decode_utf8, valid_utf8};

verus! {

/// The kind of a reply.
#[derive(Clone, Copy, Debug, PartialEq, Eq)]
pub enum ReplyStatus {
    /// The command ran; the body is its output.
    Success,
    /// The request named no known agent.
    ClientFault,
    /// The command could not be started.
    ServerFault,
}

/// What is answered to a one-shot request.
#[derive(Debug, PartialEq, Eq)]
pub struct Reply {
    pub status: ReplyStatus,
    pub body: String,
}

/// The HTTP status code of each kind of reply.
pub open spec fn status_code(status: ReplyStatus) -> int {
    match status {
        ReplyStatus::Success => 200,
        ReplyStatus::ClientFault => 400,
        ReplyStatus::ServerFault => 500,
    }
}

/// Standard output followed by the section for standard error: a line that
/// reads `STDERR:`, set off from the output by a line break, then the text
/// of standard error.
pub open spec fn with_section(stdout: Seq<char>, stderr: Seq<char>) -> Seq<char> {
    stdout + "\nSTDERR:\n"@ + stderr
}

/// The text of a finished run, given what each stream holds once decoded.
/// The section for standard error is there if and only if standard error
/// produced any bytes.
pub open spec fn capture_text(
    stdout: Seq<char>,
    stderr_bytes: Seq<u8>,
    stderr: Seq<char>,
) -> Seq<char> {
    if stderr_bytes.len() == 0 {
        stdout
    } else {
        with_section(stdout, stderr)
    }
}

impl ReplyStatus {
    /// The HTTP status code that stands for this kind of reply.
    pub fn code(self) -> (code: u16)
        ensures
            code == status_code(self),
    {
        match self {
            ReplyStatus::Success => 200,
            ReplyStatus::ClientFault => 400,
            ReplyStatus::ServerFault => 500,
        }
    }
}

/// Appends the section for standard error to the text of standard output.
pub fn append_section(stdout: String, stderr: &str) -> (text: String)
    ensures
        text@ == with_section(stdout@, stderr@),
{
    stdout.concat("\nSTDERR:\n").concat(stderr)
}

/// The text of a finished run: what the process wrote to standard output,
/// followed by the section for standard error where it wrote anything there.
/// Both streams are decoded as UTF-8, with what is invalid replaced.
pub fn render_capture(stdout: &[u8], stderr: &[u8]) -> (text: String)
    ensures
        text@ == capture_text(lossy_text(stdout@), stderr@, lossy_text(stderr@)),
        valid_utf8(stdout@) && valid_utf8(stderr@) ==> text@ == capture_text(
            decode_utf8(stdout@),
            stderr@,
            decode_utf8(stderr@),
        ),
{
    let out = decode_lossy(stdout);
    if stderr.len() == 0 {
        out
    } else {
        let err = decode_lossy(stderr);
        append_section(out, err.as_str())
    }
}

/// The reply to a request that names an unknown agent. It echoes the name.
pub fn unknown_agent_reply(unknown: &UnknownAgent) -> (reply: Reply)
    ensures
        reply.status == ReplyStatus::ClientFault,
        reply.body@ == unknown_agent_text(unknown.agent@),
{
    Reply { status: ReplyStatus::ClientFault, body: unknown.message() }
}

/// The first half of a one-shot request: the command to run, or the reply
/// that refuses the request before any process is started.
pub fn plan_run(agent: &str, prompt: &str) -> (plan: Result<CommandSpec, Reply>)
    ensures
        match command_for(agent@, prompt@, false) {
            Some(cmd) => plan matches Ok(c) && c@ == cmd,
            None => plan matches Err(reply) && reply.status == ReplyStatus::ClientFault
                && reply.body@ == unknown_agent_text(agent@),
        },
{
    match resolve(agent, prompt, false) {
        Ok(command) => Ok(command),
        Err(unknown) => Err(unknown_agent_reply(&unknown)),
    }
}

/// The second half of a one-shot request: the reply for the outcome of the
/// run. `Ok` holds the text of a finished run, `Err` the description of why
/// the command could not be started.
pub fn run_reply(outcome: Result<String, String>) -> (reply: Reply)
    ensures
        match outcome {
            Ok(text) => reply.status == ReplyStatus::Success && reply.body@ == text@,
            Err(description) => reply.status == ReplyStatus::ServerFault && reply.body@
                == description@,
        },
{
    match outcome {
        Ok(text) => Reply { status: ReplyStatus::Success, body: text },
        Err(description) => Reply { status: ReplyStatus::ServerFault, body: description },
    }
}

} // verus!
