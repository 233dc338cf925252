//! The decisions of a connection to a client of a server that runs a single CGI script: which
//! lines of the request to skip or to end on, what status to answer with, and the environment
//! of the script. Reading, writing and running the script are the caller's.
use crate::context::request::{entries_of, Entry};
use crate::context::ServerContext;
use vstd::prelude::*;

verus! {

/// The most bytes read while looking for the request line.
pub const MAX_REQUEST_BYTES: usize = 1024 * 16;

/// The most bytes read of the headers.
pub const MAX_HEADER_BYTES: usize = 1024 * 32;

/// Whether a line read where the request line is expected is skipped: it is empty, or only a
/// line break.
pub fn is_blank_request_line(line: &str) -> (r: bool)
    ensures
        r == (line@.len() == 0 || line@ == "\r\n"@),
{
    line.unicode_len() == 0 || is_line_break(line)
}

/// Whether a header line is only a line break, which ends the headers.
pub fn is_line_break(line: &str) -> (r: bool)
    ensures
        r == (line@ == "\r\n"@),
{
    proof {
        reveal_strlit("\r\n");
    }
    if line.unicode_len() != 2 {
        return false;
    }
    let r = line.get_char(0) == '\r' && line.get_char(1) == '\n';
    proof {
        if r {
            assert(line@ =~= "\r\n"@);
        }
    }
    r
}

/// Where a connection stands in reading a request.
#[derive(Clone, Copy, Debug, PartialEq, Eq, Structural)]
pub enum Phase {
    /// Looking for the request line; blank lines before it are skipped.
    RequestLine,
    /// Reading header lines, up to the line break that ends them.
    Headers,
    /// The request was read, or the input ended.
    Done,
}

/// What was read from the client: a line, or the end of the input.
pub enum Event<'a> {
    Line(&'a str),
    EndOfInput,
}

/// What the connection does next.
#[derive(Clone, Copy, Debug, PartialEq, Eq, Structural)]
pub enum Action {
    /// Reads another line where the request line is expected.
    ReadRequestLine,
    /// Reads another header line.
    ReadHeaderLine,
    /// Answers with the status line and runs the script.
    Answer,
    /// Closes the connection without an answer.
    Close,
}

/// The phase and action that follow an event: skip blank lines before the request line,
/// read header lines until a bare line break, and close when the input ends first.
pub open spec fn spec_step(phase: Phase, line: Option<Seq<char>>) -> (Phase, Action) {
    match line {
        None => (Phase::Done, Action::Close),
        Some(text) => match phase {
            Phase::RequestLine => if text.len() == 0 || text == "\r\n"@ {
                (Phase::RequestLine, Action::ReadRequestLine)
            } else {
                (Phase::Headers, Action::ReadHeaderLine)
            },
            Phase::Headers => if text == "\r\n"@ {
                (Phase::Done, Action::Answer)
            } else {
                (Phase::Headers, Action::ReadHeaderLine)
            },
            Phase::Done => (Phase::Done, Action::Close),
        },
    }
}

/// The line an event carries, if any.
pub open spec fn event_line(event: Event) -> Option<Seq<char>> {
    match event {
        Event::Line(text) => Some(text@),
        Event::EndOfInput => None,
    }
}

/// Decides what follows an event in the given phase, as [`spec_step`] states.
pub fn step(phase: Phase, event: Event) -> (r: (Phase, Action))
    ensures
        r == spec_step(phase, event_line(event)),
{
    match event {
        Event::EndOfInput => (Phase::Done, Action::Close),
        Event::Line(text) => match phase {
            Phase::RequestLine => if is_blank_request_line(text) {
                (Phase::RequestLine, Action::ReadRequestLine)
            } else {
                (Phase::Headers, Action::ReadHeaderLine)
            },
            Phase::Headers => if is_line_break(text) {
                (Phase::Done, Action::Answer)
            } else {
                (Phase::Headers, Action::ReadHeaderLine)
            },
            Phase::Done => (Phase::Done, Action::Close),
        },
    }
}

/// The status line of the answer to every request.
pub fn status_line() -> (r: String)
    ensures
        r@ == "HTTP/1.1 200 OK\r\n"@,
{
    String::from_str("HTTP/1.1 200 OK\r\n")
}

/// The environment of the script for a client at `remote_ip_address` and `remote_port`.
pub open spec fn script_environment_entries(
    context: &ServerContext,
    remote_ip_address: Seq<char>,
    remote_port: Seq<char>,
) -> Seq<Entry> {
    seq![
        ("PATH"@, context.spec_path()),
        ("SERVER_SOFTWARE"@, context.spec_software()),
        ("GATEWAY_INTERFACE"@, "CGI/1.1"@),
        ("SERVER_PROTOCOL"@, "HTTP/1.1"@),
        ("SCRIPT_FILENAME"@, context.spec_script_filename()),
        ("SCRIPT_NAME"@, context.spec_script_name()),
        ("SERVER_ADDR"@, context.spec_ip_address()),
        ("SERVER_PORT"@, context.spec_port()),
        ("REMOTE_ADDR"@, remote_ip_address),
        ("REMOTE_PORT"@, remote_port),
    ]
}

/// The environment of the script for a client at `remote_ip_address` and `remote_port`, as
/// [`script_environment_entries`] states.
pub fn script_environment(context: &ServerContext, remote_ip_address: &str, remote_port: &str) -> (r:
    Vec<(String, String)>)
    ensures
        entries_of(r@) == script_environment_entries(context, remote_ip_address@, remote_port@),
{
    let mut r: Vec<(String, String)> = Vec::new();
    r.push((String::from_str("PATH"), context.path().to_owned()));
    r.push((String::from_str("SERVER_SOFTWARE"), context.software().to_owned()));
    r.push((String::from_str("GATEWAY_INTERFACE"), String::from_str("CGI/1.1")));
    r.push((String::from_str("SERVER_PROTOCOL"), String::from_str("HTTP/1.1")));
    r.push((String::from_str("SCRIPT_FILENAME"), context.script_filename().to_owned()));
    r.push((String::from_str("SCRIPT_NAME"), context.script_name().to_owned()));
    r.push((String::from_str("SERVER_ADDR"), context.ip_address().to_owned()));
    r.push((String::from_str("SERVER_PORT"), context.port().to_owned()));
    r.push((String::from_str("REMOTE_ADDR"), remote_ip_address.to_owned()));
    r.push((String::from_str("REMOTE_PORT"), remote_port.to_owned()));
    assert(entries_of(r@) =~= script_environment_entries(context, remote_ip_address@, remote_port@));
    r
}

} // verus!
