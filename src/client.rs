//! The decisions of the gateway's reconnecting client.
//!
//! A link holds at most one connection to the command server. A call takes
//! the cached connection, or opens one; it writes the command as one line,
//! flushes, reads one line and reads it as a response. Only a call that
//! succeeds at every step puts the connection back in the cache: after any
//! failure the next call connects afresh. The program around the library
//! performs each action and reports what came of it as the next event.
use vstd::prelude::*;
use crate::json::{Json, text};
use crate::command::{IpcCommand, CommandModel};
use crate::response::{IpcResponse, ResponseModel, response_of, decode_response};

verus! {

/// Where a call stands.
#[derive(Clone, Copy, Debug, PartialEq, Eq, Structural)]
pub enum CallPhase {
    /// No call is in flight.
    Idle,
    /// Opening a connection for the pending command.
    Connecting,
    /// Writing and flushing the pending command.
    Sending,
    /// Waiting for the response line.
    Receiving,
}

/// A reconnecting client link to the command server on `port`.
#[derive(Debug)]
pub struct ClientLink {
    pub port: u16,
    /// A connection sits in the cache, ready for the next call.
    pub cached: bool,
    pub phase: CallPhase,
    /// The command of the call in flight, until it is handed out to be sent.
    pub pending: Option<IpcCommand>,
}

/// The mathematical value of a `ClientLink`.
pub struct LinkModel {
    pub port: u16,
    pub cached: bool,
    pub phase: CallPhase,
    pub pending: Option<CommandModel>,
}

impl View for ClientLink {
    type V = LinkModel;

    open spec fn view(&self) -> LinkModel {
        LinkModel {
            port: self.port,
            cached: self.cached,
            phase: self.phase,
            pending: match self.pending {
                Some(c) => Some(c@),
                None => None,
            },
        }
    }
}

/// What happened since the link's last action.
#[derive(Debug)]
pub enum ClientEvent {
    /// A caller asks for a round trip of this command.
    Call(IpcCommand),
    Connected,
    /// Opening the connection failed, for the reason given.
    ConnectFailed(String),
    /// The command line was written and flushed.
    Sent,
    WriteFailed(String),
    FlushFailed(String),
    ReadFailed(String),
    /// A response line was read; `parsed` is the line read as JSON, or the
    /// reason it could not be.
    Received { parsed: Result<Json, String> },
    /// The caller drops the link's connection.
    Disconnect,
}

/// What the link asks to be done next.
#[derive(Debug)]
pub enum ClientAction {
    /// Open a connection to the server on `port`, with the read and write
    /// timeouts set.
    Connect { port: u16 },
    /// Write the command's record as one line and flush it.
    Send(IpcCommand),
    /// Read one line.
    ReadLine,
    /// The call is over with `outcome`; keep the connection only when
    /// `keep_connection` holds, else drop it.
    Finish { outcome: Result<IpcResponse, String>, keep_connection: bool },
    /// Drop the connection, if there is one.
    Drop,
}

/// The mathematical value of a `ClientAction`.
pub enum ClientActionModel {
    Connect { port: u16 },
    Send(CommandModel),
    ReadLine,
    Finish { outcome: Result<ResponseModel, Seq<char>>, keep_connection: bool },
    Drop,
}

impl View for ClientAction {
    type V = ClientActionModel;

    open spec fn view(&self) -> ClientActionModel {
        match self {
            ClientAction::Connect { port } => ClientActionModel::Connect { port: *port },
            ClientAction::Send(c) => ClientActionModel::Send(c@),
            ClientAction::ReadLine => ClientActionModel::ReadLine,
            ClientAction::Finish { outcome, keep_connection } => ClientActionModel::Finish {
                outcome: match outcome {
                    Ok(r) => Ok(r@),
                    Err(e) => Err(e@),
                },
                keep_connection: *keep_connection,
            },
            ClientAction::Drop => ClientActionModel::Drop,
        }
    }
}

/// The decimal digits.
pub open spec fn digits() -> Seq<char> {
    seq!['0', '1', '2', '3', '4', '5', '6', '7', '8', '9']
}

/// The decimal numeral of `n`, without leading zeros.
pub open spec fn decimal(n: nat) -> Seq<char>
    decreases n,
{
    if n < 10 {
        seq![digits()[n as int]]
    } else {
        decimal(n / 10).push(digits()[(n % 10) as int])
    }
}

/// The message of a failed connection to the server on `port`.
pub open spec fn connect_failure(port: u16, reason: Seq<char>) -> Seq<char> {
    "Failed to connect to UltraLog GUI at 127.0.0.1:"@ + decimal(port as nat) + ": "@ + reason
}

/// The link after a failed call: idle, with nothing cached.
pub open spec fn failed(s: LinkModel) -> LinkModel {
    LinkModel { port: s.port, cached: false, phase: CallPhase::Idle, pending: None }
}

/// A failed call with the message `prefix` followed by `reason`.
pub open spec fn failure(prefix: Seq<char>, reason: Seq<char>) -> ClientActionModel {
    ClientActionModel::Finish { outcome: Err(prefix + reason), keep_connection: false }
}

/// The link's next state and action after event `e` in state `s`. An event
/// that does not answer the last action drops the connection and ends any
/// call in flight.
pub open spec fn client_next(s: LinkModel, e: ClientEvent) -> (LinkModel, ClientActionModel) {
    match (s.phase, e) {
        (CallPhase::Idle, ClientEvent::Call(c)) => if s.cached {
            (
                LinkModel { port: s.port, cached: false, phase: CallPhase::Sending, pending: None },
                ClientActionModel::Send(c@),
            )
        } else {
            (
                LinkModel { port: s.port, cached: false, phase: CallPhase::Connecting, pending: Some(c@) },
                ClientActionModel::Connect { port: s.port },
            )
        },
        (CallPhase::Connecting, ClientEvent::Connected) => match s.pending {
            Some(c) => (
                LinkModel { port: s.port, cached: false, phase: CallPhase::Sending, pending: None },
                ClientActionModel::Send(c),
            ),
            None => (failed(s), ClientActionModel::Drop),
        },
        (CallPhase::Connecting, ClientEvent::ConnectFailed(reason)) => (
            failed(s),
            ClientActionModel::Finish { outcome: Err(connect_failure(s.port, reason@)), keep_connection: false },
        ),
        (CallPhase::Sending, ClientEvent::Sent) => (
            LinkModel { port: s.port, cached: false, phase: CallPhase::Receiving, pending: None },
            ClientActionModel::ReadLine,
        ),
        (CallPhase::Sending, ClientEvent::WriteFailed(reason)) => (
            failed(s),
            failure("Failed to send command: "@, reason@),
        ),
        (CallPhase::Sending, ClientEvent::FlushFailed(reason)) => (failed(s), failure("Failed to flush: "@, reason@)),
        (CallPhase::Receiving, ClientEvent::ReadFailed(reason)) => (
            failed(s),
            failure("Failed to read response: "@, reason@),
        ),
        (CallPhase::Receiving, ClientEvent::Received { parsed }) => match parsed {
            Err(reason) => (failed(s), failure("Failed to parse response: "@, reason@)),
            Ok(j) => match response_of(j) {
                Some(r) => (
                    LinkModel { port: s.port, cached: true, phase: CallPhase::Idle, pending: None },
                    ClientActionModel::Finish { outcome: Ok(r), keep_connection: true },
                ),
                None => (failed(s), failure("Failed to parse response: "@, "not a known response"@)),
            },
        },
        _ => (failed(s), ClientActionModel::Drop),
    }
}

/// The decimal digit `d` as a one-character text.
fn digit_text(d: u16) -> (r: &'static str)
    requires
        d < 10,
    ensures
        r@ == seq![digits()[d as int]],
{
    proof {
        reveal_strlit("0");
        reveal_strlit("1");
        reveal_strlit("2");
        reveal_strlit("3");
        reveal_strlit("4");
        reveal_strlit("5");
        reveal_strlit("6");
        reveal_strlit("7");
        reveal_strlit("8");
        reveal_strlit("9");
    }
    let r = match d {
        0 => "0",
        1 => "1",
        2 => "2",
        3 => "3",
        4 => "4",
        5 => "5",
        6 => "6",
        7 => "7",
        8 => "8",
        _ => "9",
    };
    assert(r@ =~= seq![digits()[d as int]]);
    r
}

/// The decimal numeral of `n`.
pub fn decimal_text(n: u16) -> (r: String)
    ensures
        r@ == decimal(n as nat),
    decreases n,
{
    if n < 10 {
        text(digit_text(n))
    } else {
        let mut s = decimal_text(n / 10);
        s.append(digit_text(n % 10));
        assert(s@ =~= decimal(n as nat));
        s
    }
}

/// A failed call with the message `prefix` followed by `reason`.
fn fail_with(prefix: &str, reason: &str) -> (r: ClientAction)
    ensures
        r@ == failure(prefix@, reason@),
{
    let mut message = text(prefix);
    message.append(reason);
    ClientAction::Finish { outcome: Err(message), keep_connection: false }
}

/// Whether a round trip's outcome shows the viewer alive: it answered with
/// a success.
pub fn is_alive(outcome: &Result<IpcResponse, String>) -> (r: bool)
    ensures
        r == (outcome matches Ok(resp) && resp is Success),
{
    match outcome {
        Ok(IpcResponse::Success(_)) => true,
        _ => false,
    }
}

impl ClientLink {
    /// A link to the server on `port`, with nothing cached.
    pub fn with_port(port: u16) -> (r: Self)
        ensures
            r@ == (LinkModel { port, cached: false, phase: CallPhase::Idle, pending: None }),
    {
        ClientLink { port, cached: false, phase: CallPhase::Idle, pending: None }
    }

    /// Whether a connection sits in the cache.
    pub fn is_connected(&self) -> (r: bool)
        ensures
            r == self.cached,
    {
        self.cached
    }

    fn fail(&mut self)
        ensures
            final(self)@ == failed(old(self)@),
    {
        self.cached = false;
        self.phase = CallPhase::Idle;
        self.pending = None;
    }

    /// The link's decision on event `e`: it moves to its next state and
    /// returns the next action.
    pub fn step(&mut self, e: ClientEvent) -> (a: ClientAction)
        ensures
            (final(self)@, a@) == client_next(old(self)@, e),
    {
        match (self.phase, e) {
            (CallPhase::Idle, ClientEvent::Call(c)) => if self.cached {
                self.cached = false;
                self.phase = CallPhase::Sending;
                self.pending = None;
                ClientAction::Send(c)
            } else {
                self.cached = false;
                self.phase = CallPhase::Connecting;
                self.pending = Some(c);
                ClientAction::Connect { port: self.port }
            },
            (CallPhase::Connecting, ClientEvent::Connected) => match self.pending.take() {
                Some(c) => {
                    self.cached = false;
                    self.phase = CallPhase::Sending;
                    ClientAction::Send(c)
                },
                None => {
                    self.fail();
                    ClientAction::Drop
                },
            },
            (CallPhase::Connecting, ClientEvent::ConnectFailed(reason)) => {
                let mut message = text("Failed to connect to UltraLog GUI at 127.0.0.1:");
                let port = decimal_text(self.port);
                message.append(port.as_str());
                message.append(": ");
                message.append(reason.as_str());
                self.fail();
                ClientAction::Finish { outcome: Err(message), keep_connection: false }
            },
            (CallPhase::Sending, ClientEvent::Sent) => {
                self.cached = false;
                self.phase = CallPhase::Receiving;
                self.pending = None;
                ClientAction::ReadLine
            },
            (CallPhase::Sending, ClientEvent::WriteFailed(reason)) => {
                self.fail();
                fail_with("Failed to send command: ", reason.as_str())
            },
            (CallPhase::Sending, ClientEvent::FlushFailed(reason)) => {
                self.fail();
                fail_with("Failed to flush: ", reason.as_str())
            },
            (CallPhase::Receiving, ClientEvent::ReadFailed(reason)) => {
                self.fail();
                fail_with("Failed to read response: ", reason.as_str())
            },
            (CallPhase::Receiving, ClientEvent::Received { parsed }) => match parsed {
                Err(reason) => {
                    self.fail();
                    fail_with("Failed to parse response: ", reason.as_str())
                },
                Ok(j) => match decode_response(&j) {
                    Some(r) => {
                        self.cached = true;
                        self.phase = CallPhase::Idle;
                        self.pending = None;
                        ClientAction::Finish { outcome: Ok(r), keep_connection: true }
                    },
                    None => {
                        self.fail();
                        fail_with("Failed to parse response: ", "not a known response")
                    },
                },
            },
            _ => {
                self.fail();
                ClientAction::Drop
            },
        }
    }
}


/// After a call fails at any step the link holds no connection, so the next
/// call on the same link opens a new one by itself: no reconnect is asked of
/// the caller.
pub proof fn lemma_reconnect_after_failure(s: LinkModel, e: ClientEvent, c: IpcCommand)
    requires
        client_next(s, e).1 matches ClientActionModel::Finish { outcome, .. } && outcome is Err,
    ensures
        !client_next(s, e).0.cached,
        client_next(client_next(s, e).0, ClientEvent::Call(c)).1 == (ClientActionModel::Connect { port: s.port }),
{
}

/// The cache is filled only by a call that succeeded at every step: connect,
/// write, flush, read and reading the line as a response.
pub proof fn lemma_cached_only_after_success(s: LinkModel, e: ClientEvent)
    ensures
        client_next(s, e).0.cached ==> s.phase == CallPhase::Receiving && (e matches ClientEvent::Received {
            parsed,
        } && parsed matches Ok(j) && response_of(j) is Some),
{
}

} // verus!
