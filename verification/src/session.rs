//! The session state machine.
//!
//! A session pairs one client channel with one spawned process. Its caller
//! waits on four sources (the client, the process's standard output, its
//! standard error, and its exit) and hands each thing that happens to
//! [`Session::step`] as an [`Event`]. The answer is the one [`Action`] to
//! perform. Where an action fails, the caller reports that as an event too.
//!
//! The session is `Running` until the first terminal event and `Terminated`
//! from then on. A terminated session asks for nothing but `Close`: nothing
//! is written to the process and nothing is sent to the client any more.

use crate::command::{command_for, resolve, unknown_agent_text, CommandSpec};
use crate::frame::{
    decode_line, error_frame, error_text, frame_input, input_text, line_body, outbound_frame,
    outbound_text, Stream,
};
use crate::text::lossy_text;
use vstd::prelude::*;
use vstd::utf8::{decode_utf8, valid_utf8};

verus! {

/// Why a session ended.
#[derive(Clone, Copy, Debug, PartialEq, Eq)]
pub enum EndReason {
    /// The client sent a close signal, or its channel ended.
    ClientClosed,
    /// The client channel reported an error.
    ClientError,
    /// The process exited, with its exit code where it has one.
    ProcessExited(Option<i32>),
    /// Writing to the process's input, or flushing it, failed.
    StdinWriteFailed,
    /// Sending a frame to the client failed.
    RelaySendFailed,
}

/// The state of a session.
#[derive(Clone, Copy, Debug, PartialEq, Eq)]
pub enum Phase {
    Running,
    Terminated(EndReason),
}

/// Something that happened on one of a session's sources.
#[derive(Debug, PartialEq, Eq)]
pub enum Event {
    /// The client sent a text payload.
    ClientText(String),
    /// The client sent a frame that carries no text for the process.
    ClientIgnored,
    /// The client sent a close signal, or its channel ended.
    ClientClosed,
    /// The client channel reported an error.
    ClientError,
    /// A line was read from an output stream of the process.
    Output(Stream, String),
    /// An output stream of the process reached its end, or failed.
    OutputEnded(Stream),
    /// The process exited.
    Exited(Option<i32>),
    /// The last `WriteInput` could not be written or flushed.
    InputWriteFailed,
    /// The last `SendFrame` could not be sent.
    SendFailed,
}

/// What the caller does next.
#[derive(Debug, PartialEq, Eq)]
pub enum Action {
    /// Write this text to the process's input and flush.
    WriteInput(String),
    /// Send this text to the client as one frame.
    SendFrame(String),
    /// Nothing to do: wait for the next event.
    Wait,
    /// The session is over: stop reading every source and release the
    /// process and the channel.
    Close,
}

/// An [`Event`] as a mathematical value.
pub enum EventModel {
    ClientText(Seq<char>),
    ClientIgnored,
    ClientClosed,
    ClientError,
    Output(Stream, Seq<char>),
    OutputEnded(Stream),
    Exited(Option<i32>),
    InputWriteFailed,
    SendFailed,
}

/// An [`Action`] as a mathematical value.
pub enum ActionModel {
    WriteInput(Seq<char>),
    SendFrame(Seq<char>),
    Wait,
    Close,
}

/// A [`Session`] as a mathematical value.
pub struct SessionModel {
    pub phase: Phase,
    /// Standard output has not ended yet.
    pub stdout_open: bool,
    /// Standard error has not ended yet.
    pub stderr_open: bool,
}

impl View for Event {
    type V = EventModel;

    open spec fn view(&self) -> EventModel {
        match *self {
            Event::ClientText(text) => EventModel::ClientText(text@),
            Event::ClientIgnored => EventModel::ClientIgnored,
            Event::ClientClosed => EventModel::ClientClosed,
            Event::ClientError => EventModel::ClientError,
            Event::Output(stream, line) => EventModel::Output(stream, line@),
            Event::OutputEnded(stream) => EventModel::OutputEnded(stream),
            Event::Exited(status) => EventModel::Exited(status),
            Event::InputWriteFailed => EventModel::InputWriteFailed,
            Event::SendFailed => EventModel::SendFailed,
        }
    }
}

impl View for Action {
    type V = ActionModel;

    open spec fn view(&self) -> ActionModel {
        match *self {
            Action::WriteInput(text) => ActionModel::WriteInput(text@),
            Action::SendFrame(text) => ActionModel::SendFrame(text@),
            Action::Wait => ActionModel::Wait,
            Action::Close => ActionModel::Close,
        }
    }
}

/// The state in which every session starts: running, both streams open.
pub open spec fn initial() -> SessionModel {
    SessionModel { phase: Phase::Running, stdout_open: true, stderr_open: true }
}

/// The session `s` with one of its output streams marked as ended.
pub open spec fn with_stream_ended(s: SessionModel, stream: Stream) -> SessionModel {
    match stream {
        Stream::Stdout => SessionModel { stdout_open: false, ..s },
        Stream::Stderr => SessionModel { stderr_open: false, ..s },
    }
}

/// The reason for which an event ends a running session, if it does.
pub open spec fn ending(e: EventModel) -> Option<EndReason> {
    match e {
        EventModel::ClientClosed => Some(EndReason::ClientClosed),
        EventModel::ClientError => Some(EndReason::ClientError),
        EventModel::Exited(status) => Some(EndReason::ProcessExited(status)),
        EventModel::InputWriteFailed => Some(EndReason::StdinWriteFailed),
        EventModel::SendFailed => Some(EndReason::RelaySendFailed),
        _ => None,
    }
}

/// The state of a session after an event.
pub open spec fn next_state(s: SessionModel, e: EventModel) -> SessionModel {
    if s.phase is Terminated {
        s
    } else {
        match ending(e) {
            Some(reason) => SessionModel { phase: Phase::Terminated(reason), ..s },
            None => match e {
                EventModel::OutputEnded(stream) => with_stream_ended(s, stream),
                _ => s,
            },
        }
    }
}

/// The action that a session in state `s` asks for when event `e` arrives.
pub open spec fn reaction(s: SessionModel, e: EventModel) -> ActionModel {
    if s.phase is Terminated || ending(e) is Some {
        ActionModel::Close
    } else {
        match e {
            EventModel::ClientText(payload) => ActionModel::WriteInput(input_text(payload)),
            EventModel::Output(stream, line) => ActionModel::SendFrame(outbound_text(stream, line)),
            _ => ActionModel::Wait,
        }
    }
}

/// Whether a session in state `s` still reads from `stream`.
pub open spec fn reads(s: SessionModel, stream: Stream) -> bool {
    s.phase is Running && match stream {
        Stream::Stdout => s.stdout_open,
        Stream::Stderr => s.stderr_open,
    }
}

/// The event that one read of an output stream amounts to. `read` holds the
/// bytes that reading up to and including the next line feed gave: none at
/// the end of the stream. It is `None` where the read failed. A stream that
/// has ended or failed gives `OutputEnded`; anything else is a line.
pub fn output_event(stream: Stream, read: Option<&[u8]>) -> (event: Event)
    ensures
        event@ == match read {
            Some(raw) if raw@.len() > 0 => EventModel::Output(
                stream,
                lossy_text(line_body(raw@)),
            ),
            _ => EventModel::OutputEnded(stream),
        },
        read matches Some(raw) ==> (raw@.len() > 0 && valid_utf8(line_body(raw@)) ==> event@
            == EventModel::Output(stream, decode_utf8(line_body(raw@)))),
{
    match read {
        Some(raw) => {
            if raw.len() > 0 {
                Event::Output(stream, decode_line(raw))
            } else {
                Event::OutputEnded(stream)
            }
        },
        None => Event::OutputEnded(stream),
    }
}

/// What comes before a session: the command to launch for an interactive
/// run, or the one frame to send where the agent is unknown. In that case
/// no process is started and the channel is closed after the frame.
pub fn plan_session(agent: &str, prompt: &str) -> (plan: Result<CommandSpec, String>)
    ensures
        match command_for(agent@, prompt@, true) {
            Some(cmd) => plan matches Ok(c) && c@ == cmd,
            None => plan matches Err(frame) && frame@ == error_text(unknown_agent_text(agent@)),
        },
{
    match resolve(agent, prompt, true) {
        Ok(command) => Ok(command),
        Err(unknown) => Err(error_frame(unknown.message().as_str())),
    }
}

/// The decisions of one session.
#[derive(Clone, Copy, Debug, PartialEq, Eq)]
pub struct Session {
    phase: Phase,
    stdout_open: bool,
    stderr_open: bool,
}

impl View for Session {
    type V = SessionModel;

    closed spec fn view(&self) -> SessionModel {
        SessionModel {
            phase: self.phase,
            stdout_open: self.stdout_open,
            stderr_open: self.stderr_open,
        }
    }
}

impl Session {
    /// A session for a process that was just launched.
    pub fn new() -> (session: Session)
        ensures
            session@ == initial(),
    {
        Session { phase: Phase::Running, stdout_open: true, stderr_open: true }
    }

    /// The state of the session.
    pub fn phase(&self) -> (phase: Phase)
        ensures
            phase == self@.phase,
    {
        self.phase
    }

    /// Whether the session still relays.
    pub fn is_running(&self) -> (running: bool)
        ensures
            running == (self@.phase is Running),
    {
        match self.phase {
            Phase::Running => true,
            Phase::Terminated(_) => false,
        }
    }

    /// Why the session ended, once it has.
    pub fn end_reason(&self) -> (reason: Option<EndReason>)
        ensures
            reason == match self@.phase {
                Phase::Running => None::<EndReason>,
                Phase::Terminated(r) => Some(r),
            },
    {
        match self.phase {
            Phase::Running => None,
            Phase::Terminated(r) => Some(r),
        }
    }

    /// Whether the caller should wait for a line on `stream`. A stream that
    /// has ended is not read again, and a terminated session reads nothing.
    pub fn reads_from(&self, stream: Stream) -> (wanted: bool)
        ensures
            wanted == reads(self@, stream),
    {
        match self.phase {
            Phase::Terminated(_) => false,
            Phase::Running => match stream {
                Stream::Stdout => self.stdout_open,
                Stream::Stderr => self.stderr_open,
            },
        }
    }

    /// Whether the process may still be running when the session is over.
    /// It may whenever the session ended for another reason than the
    /// process's own exit. The caller then starts terminating the process
    /// and does not wait for it.
    pub fn leaves_process_running(&self) -> (orphaned: bool)
        ensures
            orphaned == (self@.phase matches Phase::Terminated(r) && !(r is ProcessExited)),
    {
        match self.phase {
            Phase::Running => false,
            Phase::Terminated(EndReason::ProcessExited(_)) => false,
            Phase::Terminated(_) => true,
        }
    }

    /// Takes one event and says what to do about it.
    pub fn step(&mut self, event: Event) -> (action: Action)
        ensures
            final(self)@ == next_state(old(self)@, event@),
            action@ == reaction(old(self)@, event@),
    {
        match self.phase {
            Phase::Terminated(_) => Action::Close,
            Phase::Running => match event {
                Event::ClientText(payload) => Action::WriteInput(frame_input(payload)),
                Event::ClientIgnored => Action::Wait,
                Event::ClientClosed => {
                    self.phase = Phase::Terminated(EndReason::ClientClosed);
                    Action::Close
                },
                Event::ClientError => {
                    self.phase = Phase::Terminated(EndReason::ClientError);
                    Action::Close
                },
                Event::Output(stream, line) => Action::SendFrame(
                    outbound_frame(stream, line.as_str()),
                ),
                Event::OutputEnded(stream) => {
                    match stream {
                        Stream::Stdout => {
                            self.stdout_open = false;
                        },
                        Stream::Stderr => {
                            self.stderr_open = false;
                        },
                    }
                    Action::Wait
                },
                Event::Exited(status) => {
                    self.phase = Phase::Terminated(EndReason::ProcessExited(status));
                    Action::Close
                },
                Event::InputWriteFailed => {
                    self.phase = Phase::Terminated(EndReason::StdinWriteFailed);
                    Action::Close
                },
                Event::SendFailed => {
                    self.phase = Phase::Terminated(EndReason::RelaySendFailed);
                    Action::Close
                },
            },
        }
    }
}

} // verus!
