//! The framing of messages on standard input and output, and what the serve
//! loop does with each line it reads.
//!
//! Reading and writing the streams is the caller's work. It hands each line
//! it read to [`serve_line`], writes the line it gets back, if any, and stops
//! when it is told to.

use crate::codec::{compact_text, parse, parsed, to_string};
use crate::json::{opt_view, Json, JsonView};
use crate::prompts::PromptHandler;
use crate::protocol::{Response, ResponseView};
use crate::resources::ResourceHandler;
use crate::server::McpServer;
use crate::tools::ToolHandler;
use crate::utils::error::{Error, ErrorKind, ErrorView};
use crate::utils::text::{trim, trimmed};
use vstd::prelude::*;

verus! {

/// What a read from the stream came to.
#[derive(Debug)]
pub enum Incoming {
    /// The stream is at its end.
    Closed,
    /// A line of white space only: nothing was received.
    Blank,
    /// A line that is not one JSON value.
    Malformed(Error),
    /// A message.
    Message(Json),
}

/// What the serve loop does after a line.
#[derive(Debug)]
pub enum Step {
    /// Leave the loop.
    Stop,
    /// Write the line, if there is one, and read on.
    Continue(Option<String>),
}

/// Whether reading `bytes_read` bytes that are the text `line` comes to `incoming`.
///
/// No bytes mean that the stream is closed. Else the white space at the two
/// ends of the line does not count: a line with nothing else is blank, a line
/// that is one JSON value is that message, and any other is malformed.
pub open spec fn decodes(bytes_read: usize, line: Seq<char>, incoming: Incoming) -> bool {
    if bytes_read == 0 {
        incoming is Closed
    } else if trimmed(line).len() == 0 {
        incoming is Blank
    } else {
        match parsed(trimmed(line)) {
            Some(value) => incoming matches Incoming::Message(m) && m@ == value,
            None => incoming matches Incoming::Malformed(e) && e@.kind == ErrorKind::Json,
        }
    }
}

/// The line on which `message` goes out: its compact text and a line feed.
pub open spec fn line_of(message: JsonView) -> Seq<char> {
    compact_text(message) + "\n"@
}

/// What is sent back for `message` when handling it came to `outcome`: what
/// the handler wants sent, or, where the handler itself failed, an internal
/// error that carries the message of the failure, if `message` has an id.
pub open spec fn spec_reply_for(
    message: JsonView,
    outcome: Result<Option<JsonView>, ErrorView>,
) -> Option<JsonView> {
    match outcome {
        Ok(sent) => sent,
        Err(e) => match message.member("id"@) {
            Some(id) => Some(ResponseView::internal(id, e.message()).json()),
            None => None,
        },
    }
}

/// The model of what a handler came to.
pub open spec fn handled_view(outcome: Result<Option<Json>, Error>) -> Result<
    Option<JsonView>,
    ErrorView,
> {
    match outcome {
        Ok(sent) => Ok(opt_view(sent)),
        Err(e) => Err(e@),
    }
}

/// The text of a line that may be absent.
pub open spec fn opt_line(line: Option<String>) -> Option<Seq<char>> {
    match line {
        Some(text) => Some(text@),
        None => None,
    }
}

/// Tells what a read from the stream came to.
pub fn decode_line(bytes_read: usize, line: &str) -> (r: Incoming)
    ensures
        decodes(bytes_read, line@, r),
{
    if bytes_read == 0 {
        return Incoming::Closed;
    }
    let text = trim(line);
    if text.is_empty() {
        return Incoming::Blank;
    }
    match parse(text) {
        Ok(message) => Incoming::Message(message),
        Err(e) => Incoming::Malformed(e),
    }
}

/// Writes `message` as the line on which it goes out.
pub fn encode_line(message: &Json) -> (r: Result<String, Error>)
    ensures
        r matches Ok(line) && line@ == line_of(message@),
{
    match to_string(message) {
        Ok(text) => Ok(text.concat("\n")),
        Err(e) => Err(e),
    }
}

/// Tells what is sent back for `message` when handling it came to `outcome`.
pub fn reply_for(message: &Json, outcome: Result<Option<Json>, Error>) -> (r: Option<Json>)
    ensures
        opt_view(r) == spec_reply_for(message@, handled_view(outcome)),
{
    match outcome {
        Ok(sent) => sent,
        Err(e) => match message.get("id") {
            Some(id) => Some(Response::internal(id.clone(), e.message().as_str()).to_json()),
            None => None,
        },
    }
}

/// The line that is written after a step, if the loop goes on and there is one.
pub open spec fn written(step: Step) -> Option<Seq<char>> {
    match step {
        Step::Continue(Some(line)) => Some(line@),
        _ => None,
    }
}

/// Whether one turn of the serve loop may end with `step` and with the server
/// initialized or not as `initialized` says.
///
/// The loop stops when the stream is closed. A blank line is passed over, and
/// so is a malformed one: no id can be had from it, so there is nobody to
/// tell. A message is handled, and what the server answers goes out as one
/// line.
pub open spec fn may_serve<T: ToolHandler, R: ResourceHandler, P: PromptHandler>(
    server: &McpServer<T, R, P>,
    bytes_read: usize,
    line: Seq<char>,
    step: Step,
    initialized: bool,
) -> bool {
    if bytes_read == 0 {
        step is Stop && initialized == server.initialized()
    } else if trimmed(line).len() == 0 || parsed(trimmed(line)) is None {
        step == Step::Continue(None) && initialized == server.initialized()
    } else {
        exists|sent: Option<JsonView>| #[trigger]
            server.may_answer(parsed(trimmed(line))->0, sent, initialized) && step is Continue
                && written(step) == (match sent {
                Some(answer) => Some(line_of(answer)),
                None => None,
            })
    }
}

/// One turn of the serve loop: what to do after `bytes_read` bytes were read
/// that are the text `line`.
pub fn serve_line<T: ToolHandler, R: ResourceHandler, P: PromptHandler>(
    server: &mut McpServer<T, R, P>,
    bytes_read: usize,
    line: &str,
) -> (r: Step)
    ensures
        old(server).same_setup(final(server)),
        may_serve(old(server), bytes_read, line@, r, final(server).initialized()),
{
    match decode_line(bytes_read, line) {
        Incoming::Closed => Step::Stop,
        Incoming::Blank => Step::Continue(None),
        Incoming::Malformed(_) => Step::Continue(None),
        Incoming::Message(message) => {
            let ghost received = message@;
            let outcome = server.handle_request(message.clone());
            let ghost sent = handled_view(outcome)->Ok_0;
            let out = match reply_for(&message, outcome) {
                Some(answer) => match encode_line(&answer) {
                    Ok(text) => Some(text),
                    Err(_) => None,
                },
                None => None,
            };
            proof {
                assert(old(server).may_answer(received, sent, server.initialized()));
            }
            Step::Continue(out)
        },
    }
}

} // verus!
