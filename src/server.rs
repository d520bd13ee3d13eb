//! Decisions of the connection manager. The application owns the sockets,
//! the shared broadcast channel and the tasks; it hands each event here and
//! performs the action that comes back. Every response is published to all
//! open connections, not returned to the sender.

use vstd::prelude::*;
use vstd::string::StringExecFns;
use crate::dispatch::{execute_print, kind_of, PrintError, TemplateKind};
use crate::printer::PrinterManager;
use crate::protocol::{
    ClientMessage, ErrorResponse, PrintResult, PrinterInfo, PrintersResponse, ServerMessage,
    StatusResponse,
};

verus! {

/// Capacity of the broadcast channel shared by all connections.
pub const BROADCAST_CAPACITY: usize = 100;

/// Version reported by `GetStatus`.
pub open spec fn version_text() -> Seq<char> {
    "0.1.0"@
}

/// Number of open connections, for status reports only.
pub struct ConnectionCounter {
    count: usize,
}

impl ConnectionCounter {
    pub closed spec fn value(&self) -> nat {
        self.count as nat
    }

    pub fn new() -> (r: ConnectionCounter)
        ensures
            r.value() == 0,
    {
        ConnectionCounter { count: 0 }
    }

    /// A connection was accepted.
    pub fn opened(&mut self)
        ensures
            final(self).value() == if old(self).value() < usize::MAX {
                old(self).value() + 1
            } else {
                old(self).value()
            },
    {
        if self.count < usize::MAX {
            self.count = self.count + 1;
        }
    }

    /// A connection ended; the count never goes below zero.
    pub fn closed(&mut self)
        ensures
            final(self).value() == if old(self).value() > 0 {
                old(self).value() - 1
            } else {
                0
            },
    {
        if self.count > 0 {
            self.count = self.count - 1;
        }
    }

    pub fn current(&self) -> (r: usize)
        ensures
            r == self.value(),
    {
        self.count
    }
}

/// The answer to a message that did not decode.
pub fn invalid_message(reason: String) -> (r: ServerMessage)
    ensures
        r matches ServerMessage::Error(e) && e.code@ == "INVALID_MESSAGE"@ && e.message@
            == "Invalid message format: "@ + reason@,
{
    let mut message = String::from_str("Invalid message format: ");
    message.append(reason.as_str());
    ServerMessage::Error(ErrorResponse { code: String::from_str("INVALID_MESSAGE"), message })
}

/// The answer to `GetStatus`.
pub fn status_message(connections: usize) -> (r: ServerMessage)
    ensures
        r matches ServerMessage::Status(s) && s.status@ == "online"@ && s.connections
            == connections && s.version@ == version_text(),
{
    ServerMessage::Status(
        StatusResponse {
            status: String::from_str("online"),
            connections,
            version: String::from_str("0.1.0"),
        },
    )
}

/// The answer to `GetPrinters`, from what the backend listed.
pub fn printers_message(listed: Result<Vec<PrinterInfo>, String>) -> (r: ServerMessage)
    ensures
        listed matches Ok(v) ==> (r matches ServerMessage::Printers(p) && p.printers == v),
        listed matches Err(e) ==> (r matches ServerMessage::Error(er) && er.code@
            == "PRINTER_ERROR"@ && er.message == e),
{
    match listed {
        Ok(printers) => ServerMessage::Printers(PrintersResponse { printers }),
        Err(e) => ServerMessage::Error(
            ErrorResponse { code: String::from_str("PRINTER_ERROR"), message: e },
        ),
    }
}

/// Status of a print outcome.
pub open spec fn outcome_status(outcome: Result<(), PrintError>) -> Seq<char> {
    if outcome is Ok {
        "success"@
    } else {
        "error"@
    }
}

/// The message that comes with a print outcome.
pub open spec fn outcome_message(outcome: Result<(), PrintError>) -> Seq<char> {
    match outcome {
        Ok(()) => "打印任务已完成"@,
        Err(e) => e.message_text(),
    }
}

/// The result of a print request with the given `id`.
pub fn print_message(id: String, outcome: &Result<(), PrintError>) -> (r: ServerMessage)
    ensures
        r matches ServerMessage::PrintResult(p) && p.id == id && p.status@ == outcome_status(
            *outcome,
        ) && (p.message matches Some(m) && m@ == outcome_message(*outcome)),
{
    match outcome {
        Ok(()) => ServerMessage::PrintResult(
            PrintResult {
                id,
                status: String::from_str("success"),
                message: Some(String::from_str("打印任务已完成")),
            },
        ),
        Err(e) => ServerMessage::PrintResult(
            PrintResult { id, status: String::from_str("error"), message: Some(e.message()) },
        ),
    }
}

/// Answers one decoded client message: prints, lists printers, reports the
/// status with the given connection count, or answers a ping. A message
/// that did not decode gets an `INVALID_MESSAGE` error; nothing here ends
/// the connection.
pub fn handle_message<P: PrinterManager + ?Sized>(
    decoded: Result<ClientMessage, String>,
    backend: &P,
    registry: &handlebars::Handlebars<'_>,
    connections: usize,
) -> (r: ServerMessage)
    ensures
        decoded matches Err(e) ==> (r matches ServerMessage::Error(er) && er.code@
            == "INVALID_MESSAGE"@ && er.message@ == "Invalid message format: "@ + e@),
        decoded matches Ok(ClientMessage::Ping) ==> r is Pong,
        decoded matches Ok(ClientMessage::GetStatus) ==> (r matches ServerMessage::Status(s)
            && s.status@ == "online"@ && s.connections == connections && s.version@
            == version_text()),
        decoded matches Ok(ClientMessage::GetPrinters) ==> (r is Printers || (
        r matches ServerMessage::Error(er) && er.code@ == "PRINTER_ERROR"@)),
        decoded matches Ok(ClientMessage::Print(req)) ==> (r matches ServerMessage::PrintResult(p)
            && p.id == req.id && (p.status@ == "success"@ || p.status@ == "error"@)),
        decoded matches Ok(ClientMessage::Print(req)) ==> (kind_of(req.template_type@) is None
            || kind_of(req.template_type@) == Some(TemplateKind::Page)) ==> (
        r matches ServerMessage::PrintResult(p) && p.status@ == "error"@),
{
    match decoded {
        Ok(ClientMessage::Print(req)) => {
            let outcome = execute_print(&req, backend, registry);
            print_message(req.id, &outcome)
        },
        Ok(ClientMessage::GetPrinters) => printers_message(backend.list_printers()),
        Ok(ClientMessage::GetStatus) => status_message(connections),
        Ok(ClientMessage::Ping) => ServerMessage::Pong,
        Err(e) => invalid_message(e),
    }
}

/// What the inbound side of a connection read.
pub enum Inbound {
    /// A text frame.
    Text(String),
    /// Any other frame: binary, ping, pong, close.
    Other,
    /// The transport failed.
    Failed,
    /// The stream ended.
    Ended,
}

pub enum InboundAction {
    /// Decode and answer the text, then read on.
    Handle(String),
    /// Read on.
    Ignore,
    /// End the connection.
    Stop,
}

/// The inbound side answers every text frame, whatever it holds, and ends
/// only when the transport fails or the stream ends.
pub fn on_inbound(frame: Inbound) -> (r: InboundAction)
    ensures
        frame matches Inbound::Text(t) ==> r == InboundAction::Handle(t),
        frame is Other ==> r is Ignore,
        (frame is Failed || frame is Ended) ==> r is Stop,
{
    match frame {
        Inbound::Text(t) => InboundAction::Handle(t),
        Inbound::Other => InboundAction::Ignore,
        Inbound::Failed => InboundAction::Stop,
        Inbound::Ended => InboundAction::Stop,
    }
}

/// What the outbound side of a connection took from the broadcast channel.
pub enum Outbound {
    /// The next published response.
    Message(String),
    /// This connection fell behind and `n` responses were dropped for it.
    Lagged(u64),
    /// The channel closed.
    Closed,
}

pub enum OutboundAction {
    /// Write the response to this connection's socket.
    Forward(String),
    /// End the connection.
    Stop,
}

/// The outbound side forwards every published response. A connection that
/// falls behind the channel's capacity is ended, like one whose channel
/// closed: the same policy for every connection.
pub fn on_outbound(event: Outbound) -> (r: OutboundAction)
    ensures
        event matches Outbound::Message(m) ==> r == OutboundAction::Forward(m),
        !(event is Message) ==> r is Stop,
{
    match event {
        Outbound::Message(m) => OutboundAction::Forward(m),
        Outbound::Lagged(n) => OutboundAction::Stop,
        Outbound::Closed => OutboundAction::Stop,
    }
}

/// Body of the liveness endpoint.
pub fn health_body() -> (r: &'static str)
    ensures
        r@ == "OK"@,
{
    "OK"
}

} // verus!
