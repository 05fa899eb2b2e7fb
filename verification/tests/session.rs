use agent_bridge::frame::Stream;
use agent_bridge::session::{
    output_event, plan_session, Action, EndReason, Event, Phase, Session,
};

fn text(s: &str) -> Event {
    Event::ClientText(s.to_string())
}

fn out(s: &str) -> Event {
    Event::Output(Stream::Stdout, s.to_string())
}

fn err(s: &str) -> Event {
    Event::Output(Stream::Stderr, s.to_string())
}

fn read(bytes: &[u8]) -> Option<&[u8]> {
    Some(bytes)
}

fn write(s: &str) -> Action {
    Action::WriteInput(s.to_string())
}

fn send(s: &str) -> Action {
    Action::SendFrame(s.to_string())
}

/// Stands for a process that answers each line of input with one line of
/// output, the input behind a prefix: the session's writes go in, the events
/// that the process's output would cause come out.
fn echo_process(written: &str) -> Vec<Event> {
    written
        .lines()
        .map(|line| Event::Output(Stream::Stdout, format!("echo: {}", line)))
        .collect()
}

#[test]
fn a_new_session_runs_and_reads_everything() {
    let s = Session::new();
    assert_eq!(s.phase(), Phase::Running);
    assert!(s.is_running());
    assert_eq!(s.end_reason(), None);
    assert!(s.reads_from(Stream::Stdout));
    assert!(s.reads_from(Stream::Stderr));
    assert!(!s.leaves_process_running());
}

#[test]
fn client_lines_reach_the_process_in_order() {
    let mut s = Session::new();
    assert_eq!(s.step(text("a")), write("a\n"));
    assert_eq!(s.step(text("b\n")), write("b\n"));
    assert_eq!(s.step(text("c")), write("c\n"));
    assert!(s.is_running());
}

#[test]
fn echoed_lines_come_back_in_the_order_sent() {
    let mut s = Session::new();
    let mut frames = Vec::new();
    for payload in ["a", "b\n", "c"] {
        let action = s.step(text(payload));
        let written = match action {
            Action::WriteInput(w) => w,
            other => panic!("expected a write, got {:?}", other),
        };
        for event in echo_process(&written) {
            match s.step(event) {
                Action::SendFrame(f) => frames.push(f),
                other => panic!("expected a frame, got {:?}", other),
            }
        }
    }
    assert_eq!(frames, vec!["echo: a\n", "echo: b\n", "echo: c\n"]);
    assert!(s.is_running());
}

#[test]
fn echoed_lines_keep_their_order_when_output_lags() {
    let mut s = Session::new();
    let mut pending = Vec::new();
    for payload in ["a\n", "b", "c\n"] {
        match s.step(text(payload)) {
            Action::WriteInput(w) => pending.extend(echo_process(&w)),
            other => panic!("expected a write, got {:?}", other),
        }
    }
    let frames: Vec<Action> = pending.into_iter().map(|e| s.step(e)).collect();
    assert_eq!(frames, vec![send("echo: a\n"), send("echo: b\n"), send("echo: c\n")]);
}

#[test]
fn one_line_of_each_stream_gives_two_frames() {
    let mut s = Session::new();
    let first = s.step(out("out"));
    let second = s.step(err("oops"));
    assert_eq!(first, send("out\n"));
    assert_eq!(second, send("ERR: oops\n"));
    assert_eq!(s.step(Event::OutputEnded(Stream::Stdout)), Action::Wait);
    assert_eq!(s.step(Event::OutputEnded(Stream::Stderr)), Action::Wait);
    assert!(s.is_running());
}

#[test]
fn the_two_streams_may_arrive_in_either_order() {
    let mut s = Session::new();
    let actions = vec![s.step(err("oops")), s.step(out("out"))];
    assert_eq!(actions, vec![send("ERR: oops\n"), send("out\n")]);
    let prefixed = actions
        .iter()
        .filter(|a| matches!(a, Action::SendFrame(f) if f.starts_with("ERR: ")))
        .count();
    assert_eq!(prefixed, 1);
}

#[test]
fn exit_ends_the_session_at_once() {
    let mut s = Session::new();
    assert_eq!(s.step(out("last line")), send("last line\n"));
    assert_eq!(s.step(Event::Exited(Some(0))), Action::Close);
    assert_eq!(s.phase(), Phase::Terminated(EndReason::ProcessExited(Some(0))));
    assert_eq!(s.end_reason(), Some(EndReason::ProcessExited(Some(0))));
    assert!(!s.is_running());
    assert!(!s.leaves_process_running());
}

#[test]
fn exit_status_is_kept_as_observed() {
    let mut failed = Session::new();
    failed.step(Event::Exited(Some(3)));
    assert_eq!(failed.phase(), Phase::Terminated(EndReason::ProcessExited(Some(3))));
    let mut signalled = Session::new();
    signalled.step(Event::Exited(None));
    assert_eq!(signalled.phase(), Phase::Terminated(EndReason::ProcessExited(None)));
    let mut negative = Session::new();
    negative.step(Event::Exited(Some(-1)));
    assert_eq!(negative.end_reason(), Some(EndReason::ProcessExited(Some(-1))));
}

#[test]
fn nothing_is_written_after_the_client_closed() {
    let mut s = Session::new();
    assert_eq!(s.step(text("before")), write("before\n"));
    assert_eq!(s.step(Event::ClientClosed), Action::Close);
    assert_eq!(s.phase(), Phase::Terminated(EndReason::ClientClosed));
    assert_eq!(s.step(text("after")), Action::Close);
    assert_eq!(s.step(text("again\n")), Action::Close);
    assert_eq!(s.phase(), Phase::Terminated(EndReason::ClientClosed));
    assert!(s.leaves_process_running());
}

#[test]
fn nothing_is_sent_after_the_client_closed() {
    let mut s = Session::new();
    s.step(Event::ClientClosed);
    assert_eq!(s.step(out("late")), Action::Close);
    assert_eq!(s.step(err("late")), Action::Close);
    assert_eq!(s.step(Event::Exited(Some(0))), Action::Close);
    assert_eq!(s.phase(), Phase::Terminated(EndReason::ClientClosed));
}

#[test]
fn nothing_is_written_after_the_process_exited() {
    let mut s = Session::new();
    s.step(Event::Exited(Some(0)));
    assert_eq!(s.step(text("too late")), Action::Close);
    assert_eq!(s.step(Event::ClientClosed), Action::Close);
    assert_eq!(s.phase(), Phase::Terminated(EndReason::ProcessExited(Some(0))));
}

#[test]
fn a_client_error_ends_the_session() {
    let mut s = Session::new();
    assert_eq!(s.step(Event::ClientError), Action::Close);
    assert_eq!(s.phase(), Phase::Terminated(EndReason::ClientError));
    assert!(s.leaves_process_running());
}

#[test]
fn a_failed_write_ends_the_session() {
    let mut s = Session::new();
    assert_eq!(s.step(text("x")), write("x\n"));
    assert_eq!(s.step(Event::InputWriteFailed), Action::Close);
    assert_eq!(s.phase(), Phase::Terminated(EndReason::StdinWriteFailed));
    assert!(s.leaves_process_running());
    assert_eq!(s.step(text("y")), Action::Close);
}

#[test]
fn a_failed_send_ends_the_session() {
    let mut s = Session::new();
    assert_eq!(s.step(out("x")), send("x\n"));
    assert_eq!(s.step(Event::SendFailed), Action::Close);
    assert_eq!(s.phase(), Phase::Terminated(EndReason::RelaySendFailed));
    assert!(s.leaves_process_running());
    assert_eq!(s.step(out("y")), Action::Close);
}

#[test]
fn frames_without_text_are_passed_over() {
    let mut s = Session::new();
    assert_eq!(s.step(Event::ClientIgnored), Action::Wait);
    assert!(s.is_running());
    assert_eq!(s.step(text("still here")), write("still here\n"));
}

#[test]
fn an_ended_stream_is_not_read_again() {
    let mut s = Session::new();
    assert_eq!(s.step(Event::OutputEnded(Stream::Stdout)), Action::Wait);
    assert!(s.is_running());
    assert!(!s.reads_from(Stream::Stdout));
    assert!(s.reads_from(Stream::Stderr));
    assert_eq!(s.step(err("still talking")), send("ERR: still talking\n"));
    assert_eq!(s.step(text("in")), write("in\n"));
    assert_eq!(s.step(Event::OutputEnded(Stream::Stderr)), Action::Wait);
    assert!(!s.reads_from(Stream::Stderr));
    assert!(s.is_running());
    assert_eq!(s.step(Event::Exited(Some(0))), Action::Close);
}

#[test]
fn a_terminated_session_reads_nothing() {
    let mut s = Session::new();
    s.step(Event::ClientClosed);
    assert!(!s.reads_from(Stream::Stdout));
    assert!(!s.reads_from(Stream::Stderr));
}

#[test]
fn the_first_terminal_event_decides_the_reason() {
    let mut s = Session::new();
    s.step(Event::SendFailed);
    s.step(Event::Exited(Some(0)));
    s.step(Event::ClientClosed);
    s.step(Event::OutputEnded(Stream::Stdout));
    assert_eq!(s.phase(), Phase::Terminated(EndReason::RelaySendFailed));
}

#[test]
fn a_read_becomes_a_line_or_the_end() {
    assert_eq!(output_event(Stream::Stdout, read(b"hello\n")), out("hello"));
    assert_eq!(output_event(Stream::Stderr, read(b"oops\r\n")), err("oops"));
    assert_eq!(output_event(Stream::Stdout, read(b"tail")), out("tail"));
    assert_eq!(output_event(Stream::Stdout, read(b"\n")), out(""));
    assert_eq!(output_event(Stream::Stdout, read(b"")), Event::OutputEnded(Stream::Stdout));
    assert_eq!(output_event(Stream::Stderr, read(b"")), Event::OutputEnded(Stream::Stderr));
    assert_eq!(output_event(Stream::Stdout, None), Event::OutputEnded(Stream::Stdout));
    assert_eq!(output_event(Stream::Stderr, None), Event::OutputEnded(Stream::Stderr));
}

#[test]
fn a_read_of_invalid_text_is_still_a_line() {
    assert_eq!(output_event(Stream::Stdout, read(b"\xff\xfe\n")), out("\u{fffd}\u{fffd}"));
    let mut s = Session::new();
    assert_eq!(
        s.step(output_event(Stream::Stderr, read(b"bad \x80 byte\n"))),
        send("ERR: bad \u{fffd} byte\n")
    );
}

#[test]
fn a_known_agent_opens_a_session() {
    let command = plan_session("gemini", "hi").unwrap();
    assert_eq!(command.program(), "gemini");
    assert_eq!(command.args(), &vec!["-i".to_string(), "hi".to_string(), "-y".to_string()]);
    let codex = plan_session("codex", "hi").unwrap();
    assert_eq!(codex.args(), &vec!["hi".to_string(), "--full-auto".to_string()]);
}

#[test]
fn an_unknown_agent_gets_one_error_frame() {
    assert_eq!(plan_session("nobody", "hi"), Err("Error: Unknown agent: nobody".to_string()));
    assert_eq!(plan_session("", ""), Err("Error: Unknown agent: ".to_string()));
}
