//! The decisions of the command server's connection handler.
//!
//! One handler serves one connection. It reads a line, hands a well-formed
//! command to the consumer's queue, waits for the reply, writes it, and only
//! then reads the next line. The program around the library performs each
//! action and reports what came of it as the next event.
use vstd::prelude::*;
use crate::json::{Json, text};
use crate::command::{IpcCommand, CommandModel, command_of, decode_command};
use crate::response::{IpcResponse, ResponseModel};

verus! {

/// The loopback port on which the command server listens unless told
/// otherwise.
pub const DEFAULT_IPC_PORT: u16 = 52452;

/// What a connection handler is waiting for.
#[derive(Clone, Copy, Debug, PartialEq, Eq, Structural)]
pub enum HandlerState {
    /// Waiting for the next line from the peer.
    Reading,
    /// A command is on the queue; waiting for the consumer's reply.
    Dispatched,
    /// A response is being written; the connection closes afterwards when
    /// `close_after` holds.
    Writing { close_after: bool },
    /// The connection is finished.
    Closed,
}

/// What came of the handler's last action.
#[derive(Debug)]
pub enum HandlerEvent {
    /// A line was read. `parsed` is the line read as JSON, or the reason it
    /// could not be.
    Line { text: String, parsed: Result<Json, String> },
    /// The peer closed the connection, or reading failed.
    ReadFailed,
    /// The consumer replied.
    Reply(IpcResponse),
    /// No reply came within the reply timeout.
    ReplyTimedOut,
    /// The queue could not take the command: the consumer is gone for good.
    QueueClosed,
    /// The response was written and flushed.
    Written,
    /// Writing the response failed.
    WriteFailed,
}

/// What the handler asks to be done next.
#[derive(Debug)]
pub enum HandlerAction {
    /// Read the next line.
    ReadLine,
    /// Put the command on the consumer's queue with a fresh reply sink, and
    /// wait for the reply up to the reply timeout.
    Enqueue(IpcCommand),
    /// Write the response as one line and flush it.
    Write(IpcResponse),
    /// Close the connection.
    Close,
}

/// The mathematical value of a `HandlerAction`.
pub enum ActionModel {
    ReadLine,
    Enqueue(CommandModel),
    Write(ResponseModel),
    Close,
}

impl View for HandlerAction {
    type V = ActionModel;

    open spec fn view(&self) -> ActionModel {
        match self {
            HandlerAction::ReadLine => ActionModel::ReadLine,
            HandlerAction::Enqueue(c) => ActionModel::Enqueue(c@),
            HandlerAction::Write(r) => ActionModel::Write(r@),
            HandlerAction::Close => ActionModel::Close,
        }
    }
}

/// Whether `c` is a white-space character in Unicode's sense.
pub open spec fn is_space(c: char) -> bool {
    ||| '\u{9}' <= c <= '\u{d}'
    ||| c == ' '
    ||| c == '\u{85}'
    ||| c == '\u{a0}'
    ||| c == '\u{1680}'
    ||| '\u{2000}' <= c <= '\u{200a}'
    ||| c == '\u{2028}'
    ||| c == '\u{2029}'
    ||| c == '\u{202f}'
    ||| c == '\u{205f}'
    ||| c == '\u{3000}'
}

/// Whether a line holds nothing but white space.
pub open spec fn is_blank(s: Seq<char>) -> bool {
    forall|i: int| 0 <= i < s.len() ==> is_space(#[trigger] s[i])
}

/// The prefix of the reply to a line that is not a command.
pub open spec fn invalid_prefix() -> Seq<char> {
    "Invalid command JSON: "@
}

/// The reply to a line that is JSON but names no command.
pub open spec fn not_a_command_message() -> Seq<char> {
    invalid_prefix() + "not a known command with its fields"@
}

/// The reply when the consumer did not answer in time.
pub open spec fn timeout_message() -> Seq<char> {
    "Timeout waiting for GUI response"@
}

/// The reply when the consumer's queue is gone.
pub open spec fn not_responding_message() -> Seq<char> {
    "GUI is not responding"@
}

/// The handler's next state and action after `e` in state `s`. An event that
/// does not answer the last action closes the connection.
pub open spec fn handler_next(s: HandlerState, e: HandlerEvent) -> (HandlerState, ActionModel) {
    match (s, e) {
        (HandlerState::Reading, HandlerEvent::Line { text, parsed }) => if is_blank(text@) {
            (HandlerState::Reading, ActionModel::ReadLine)
        } else {
            match parsed {
                Err(reason) => (
                    HandlerState::Writing { close_after: false },
                    ActionModel::Write(ResponseModel::Error { message: invalid_prefix() + reason@ }),
                ),
                Ok(j) => match command_of(j) {
                    Some(c) => (HandlerState::Dispatched, ActionModel::Enqueue(c)),
                    None => (
                        HandlerState::Writing { close_after: false },
                        ActionModel::Write(ResponseModel::Error { message: not_a_command_message() }),
                    ),
                },
            }
        },
        (HandlerState::Dispatched, HandlerEvent::Reply(r)) => (
            HandlerState::Writing { close_after: false },
            ActionModel::Write(r@),
        ),
        (HandlerState::Dispatched, HandlerEvent::ReplyTimedOut) => (
            HandlerState::Writing { close_after: false },
            ActionModel::Write(ResponseModel::Error { message: timeout_message() }),
        ),
        (HandlerState::Dispatched, HandlerEvent::QueueClosed) => (
            HandlerState::Writing { close_after: true },
            ActionModel::Write(ResponseModel::Error { message: not_responding_message() }),
        ),
        (HandlerState::Writing { close_after }, HandlerEvent::Written) => if close_after {
            (HandlerState::Closed, ActionModel::Close)
        } else {
            (HandlerState::Reading, ActionModel::ReadLine)
        },
        _ => (HandlerState::Closed, ActionModel::Close),
    }
}

/// Whether every character of `s` is white space.
pub fn blank(s: &str) -> (r: bool)
    ensures
        r == is_blank(s@),
{
    let n = s.unicode_len();
    let mut i: usize = 0;
    while i < n
        invariant
            n == s@.len(),
            i <= n,
            forall|k: int| 0 <= k < i ==> is_space(#[trigger] s@[k]),
        decreases n - i,
    {
        let c = s.get_char(i);
        let space = ('\u{9}' <= c && c <= '\u{d}') || c == ' ' || c == '\u{85}' || c == '\u{a0}'
            || c == '\u{1680}' || ('\u{2000}' <= c && c <= '\u{200a}') || c == '\u{2028}'
            || c == '\u{2029}' || c == '\u{202f}' || c == '\u{205f}' || c == '\u{3000}';
        if !space {
            assert(!is_space(s@[i as int]));
            return false;
        }
        i = i + 1;
    }
    true
}

/// The text `prefix` followed by `rest`.
fn joined(prefix: &str, rest: &str) -> (r: String)
    ensures
        r@ == prefix@ + rest@,
{
    let mut s = text(prefix);
    s.append(rest);
    s
}

/// The connection handler's decision: the next state and action after event
/// `e` in state `s`.
pub fn handler_step(s: HandlerState, e: HandlerEvent) -> (r: (HandlerState, HandlerAction))
    ensures
        (r.0, r.1@) == handler_next(s, e),
{
    match (s, e) {
        (HandlerState::Reading, HandlerEvent::Line { text, parsed }) => {
            if blank(text.as_str()) {
                (HandlerState::Reading, HandlerAction::ReadLine)
            } else {
                match parsed {
                    Err(reason) => (
                        HandlerState::Writing { close_after: false },
                        HandlerAction::Write(IpcResponse::Error {
                            message: joined("Invalid command JSON: ", reason.as_str()),
                        }),
                    ),
                    Ok(j) => match decode_command(&j) {
                        Some(c) => (HandlerState::Dispatched, HandlerAction::Enqueue(c)),
                        None => (
                            HandlerState::Writing { close_after: false },
                            HandlerAction::Write(IpcResponse::Error {
                                message: joined("Invalid command JSON: ", "not a known command with its fields"),
                            }),
                        ),
                    },
                }
            }
        },
        (HandlerState::Dispatched, HandlerEvent::Reply(r)) => (
            HandlerState::Writing { close_after: false },
            HandlerAction::Write(r),
        ),
        (HandlerState::Dispatched, HandlerEvent::ReplyTimedOut) => (
            HandlerState::Writing { close_after: false },
            HandlerAction::Write(IpcResponse::error("Timeout waiting for GUI response")),
        ),
        (HandlerState::Dispatched, HandlerEvent::QueueClosed) => (
            HandlerState::Writing { close_after: true },
            HandlerAction::Write(IpcResponse::error("GUI is not responding")),
        ),
        (HandlerState::Writing { close_after }, HandlerEvent::Written) => if close_after {
            (HandlerState::Closed, HandlerAction::Close)
        } else {
            (HandlerState::Reading, HandlerAction::ReadLine)
        },
        _ => (HandlerState::Closed, HandlerAction::Close),
    }
}


/// One exchange at a time: a command is put on the queue only while reading,
/// and once it is, no line is read until a response has been written. A
/// second command sent before the first one's reply arrives waits unread.
pub proof fn lemma_one_exchange_at_a_time(s: HandlerState, e: HandlerEvent)
    ensures
        handler_next(s, e).1 is Enqueue ==> s == HandlerState::Reading,
        handler_next(s, e).1 is ReadLine ==> (s == HandlerState::Reading && e is Line) || (
        s == HandlerState::Writing { close_after: false } && e is Written),
        s == HandlerState::Dispatched ==> handler_next(s, e).1 is Write || handler_next(s, e).1 is Close,
        handler_next(s, e).1 is Write ==> handler_next(s, e).0 is Writing,
{
}

/// A line that is not JSON is answered with an error, and the connection
/// stays open: once that answer is written the handler reads on, and a
/// following `Ping` record is put on the queue.
pub proof fn lemma_malformed_line_keeps_connection(line: String, reason: String, next_line: String, ping: Json)
    requires
        !is_blank(line@),
        !is_blank(next_line@),
        command_of(ping) == Some(CommandModel::Ping),
    ensures
        handler_next(HandlerState::Reading, HandlerEvent::Line { text: line, parsed: Err(reason) }) == (
        HandlerState::Writing { close_after: false },
        ActionModel::Write(ResponseModel::Error { message: invalid_prefix() + reason@ }),
        ),
        handler_next(HandlerState::Writing { close_after: false }, HandlerEvent::Written) == (
        HandlerState::Reading,
        ActionModel::ReadLine,
        ),
        handler_next(HandlerState::Reading, HandlerEvent::Line { text: next_line, parsed: Ok(ping) }) == (
        HandlerState::Dispatched,
        ActionModel::Enqueue(CommandModel::Ping),
        ),
{
}

/// When the consumer does not reply in time, the caller is told so with a
/// timeout error, and the connection stays usable afterwards. By the
/// contract of `encode_response`, the record written for that error is
/// exactly `{"status": "Error", "data": {"message": "Timeout waiting for GUI
/// response"}}`.
pub proof fn lemma_timeout_keeps_connection()
    ensures
        handler_next(HandlerState::Dispatched, HandlerEvent::ReplyTimedOut) == (
        HandlerState::Writing { close_after: false },
        ActionModel::Write(ResponseModel::Error { message: "Timeout waiting for GUI response"@ }),
        ),
        handler_next(HandlerState::Writing { close_after: false }, HandlerEvent::Written) == (
        HandlerState::Reading,
        ActionModel::ReadLine,
        ),
{
}

/// A handler writes back exactly the reply that came through its own reply
/// sink; it never writes a response that it did not receive or make itself.
pub proof fn lemma_reply_is_own(s: HandlerState, e: HandlerEvent)
    ensures
        handler_next(s, e).1 matches ActionModel::Write(r) ==> (match e {
            HandlerEvent::Reply(own) => r == own@,
            _ => r is Error,
        }),
{
}

} // verus!
