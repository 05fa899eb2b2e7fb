//! Framing of text in both directions of a session.
//!
//! Towards the process, every client payload becomes one line of input: a
//! terminator is added where the payload brings none. Towards the client,
//! every line of output becomes one frame: the line with its terminator put
//! back, behind a marker where the line came from standard error.

use crate::text::{decode_lossy, lossy_text};
use vstd::prelude::*;
use vstd::utf8::{decode_utf8, valid_utf8};

verus! {

/// The output stream of the process that a line was read from.
#[derive(Clone, Copy, Debug, PartialEq, Eq)]
pub enum Stream {
    Stdout,
    Stderr,
}

/// The marker that precedes a line of standard error in a frame: `ERR: `.
pub open spec fn error_marker() -> Seq<char> {
    seq!['E', 'R', 'R', ':', ' ']
}

/// Whether a text ends with the line terminator.
pub open spec fn is_terminated(text: Seq<char>) -> bool {
    text.len() > 0 && text.last() == '\n'
}

/// What is written to the process for a client payload: the payload, and a
/// terminator unless the payload already ends with one.
pub open spec fn input_text(payload: Seq<char>) -> Seq<char> {
    if is_terminated(payload) {
        payload
    } else {
        payload.push('\n')
    }
}

/// What is sent to the client for a line of output.
pub open spec fn outbound_text(stream: Stream, line: Seq<char>) -> Seq<char> {
    match stream {
        Stream::Stdout => line.push('\n'),
        Stream::Stderr => error_marker() + line.push('\n'),
    }
}

/// The frame that tells the client why no session takes place: `Error: `
/// and the diagnostic.
pub open spec fn error_text(diagnostic: Seq<char>) -> Seq<char> {
    "Error: "@ + diagnostic
}

/// The bytes of a line without its terminator. A terminator is a line feed,
/// together with a carriage return directly before it. Bytes that end
/// without a line feed (the tail of a stream) are a line as they stand.
pub open spec fn line_body(raw: Seq<u8>) -> Seq<u8> {
    if raw.len() > 0 && raw.last() == 0x0au8 {
        let cut = raw.drop_last();
        if cut.len() > 0 && cut.last() == 0x0du8 {
            cut.drop_last()
        } else {
            cut
        }
    } else {
        raw
    }
}

/// Makes a client payload into one line of input for the process.
pub fn frame_input(payload: String) -> (framed: String)
    ensures
        framed@ == input_text(payload@),
{
    let n = payload.as_str().unicode_len();
    if n > 0 && payload.as_str().get_char(n - 1) == '\n' {
        payload
    } else {
        let mut framed = payload;
        proof {
            reveal_strlit("\n");
        }
        framed.append("\n");
        assert(framed@ =~= input_text(payload@));
        framed
    }
}

/// Makes a line of output into the frame that the client receives.
pub fn outbound_frame(stream: Stream, line: &str) -> (frame: String)
    ensures
        frame@ == outbound_text(stream, line@),
{
    proof {
        reveal_strlit("\n");
        reveal_strlit("ERR: ");
    }
    let frame = match stream {
        Stream::Stdout => String::from_str(line).concat("\n"),
        Stream::Stderr => String::from_str("ERR: ").concat(line).concat("\n"),
    };
    assert(frame@ =~= outbound_text(stream, line@));
    frame
}

/// Makes a diagnostic into the frame that the client receives in place of
/// a session.
pub fn error_frame(diagnostic: &str) -> (frame: String)
    ensures
        frame@ == error_text(diagnostic@),
{
    String::from_str("Error: ").concat(diagnostic)
}

/// The number of bytes of `raw` that belong to the line itself.
pub fn body_len(raw: &[u8]) -> (n: usize)
    ensures
        n <= raw@.len(),
        raw@.subrange(0, n as int) == line_body(raw@),
{
    let len = raw.len();
    let n = if len > 0 && raw[len - 1] == 0x0au8 {
        if len > 1 && raw[len - 2] == 0x0du8 {
            len - 2
        } else {
            len - 1
        }
    } else {
        len
    };
    assert(raw@.subrange(0, n as int) =~= line_body(raw@));
    n
}

/// Reads a line of output as text: the terminator is dropped, and what is
/// not valid UTF-8 is replaced, never rejected.
pub fn decode_line(raw: &[u8]) -> (line: String)
    ensures
        line@ == lossy_text(line_body(raw@)),
        valid_utf8(line_body(raw@)) ==> line@ == decode_utf8(line_body(raw@)),
{
    let n = body_len(raw);
    decode_lossy(vstd::slice::slice_subrange(raw, 0, n))
}

/// A line holds no line feed, provided that the bytes it was taken from
/// were read up to the first line feed: the only line feed that such bytes
/// can hold is their last byte.
pub proof fn lemma_line_holds_no_line_feed(raw: Seq<u8>)
    requires
        forall|i: int| 0 <= i < raw.len() - 1 ==> raw[i] != 0x0au8,
    ensures
        forall|i: int| 0 <= i < line_body(raw).len() ==> line_body(raw)[i] != 0x0au8,
        line_body(raw).len() <= raw.len(),
        line_body(raw) == raw.take(line_body(raw).len() as int),
{
    assert(line_body(raw) =~= raw.take(line_body(raw).len() as int));
}

/// A payload is written to the process as the same line whether or not the
/// client ended it with a terminator, and what is written always ends with
/// one.
pub proof fn lemma_terminator_is_optional(payload: Seq<char>)
    ensures
        is_terminated(input_text(payload)),
        input_text(input_text(payload)) == input_text(payload),
        !is_terminated(payload) ==> input_text(payload.push('\n')) == input_text(payload),
{
}

} // verus!
