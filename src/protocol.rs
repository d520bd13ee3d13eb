//! Messages exchanged with clients. A client sends one `ClientMessage` per
//! frame; every `ServerMessage` is published to all open connections.

use vstd::prelude::*;

verus! {

#[verifier::external_type_specification]
#[verifier::external_body]
pub struct ExJsonValue(serde_json::Value);

/// A message from a client, told apart by its `type` tag.
pub enum ClientMessage {
    /// Render a template and print it.
    Print(PrintRequest),
    /// List the printers of the backend.
    GetPrinters,
    /// Report the service status.
    GetStatus,
    /// Liveness probe, answered with `Pong`.
    Ping,
}

/// A message to the clients, told apart by its `type` tag.
pub enum ServerMessage {
    PrintResult(PrintResult),
    Printers(PrintersResponse),
    Status(StatusResponse),
    Pong,
    Error(ErrorResponse),
}

/// A print job as a client sends it.
pub struct PrintRequest {
    /// Correlation token, echoed in the result; uniqueness is not enforced.
    pub id: String,
    /// `escpos`, `zpl`, `text` or `pdf`; checked only when dispatching.
    pub template_type: String,
    /// Handlebars template source.
    pub template: String,
    /// Data the template is rendered against.
    pub data: serde_json::Value,
    /// Target printer; absent or empty means the backend's default.
    pub printer: Option<String>,
    /// Copy count and paper size.
    pub options: PrintOptions,
}

/// Options of a print job.
pub struct PrintOptions {
    /// Number of copies; zero is accepted and prints nothing.
    pub copies: u32,
    /// Paper size, for page printing.
    pub paper_size: Option<String>,
}

/// Copies printed when a request does not say.
pub fn default_copies() -> (r: u32)
    ensures
        r == 1,
{
    1
}

impl Default for PrintOptions {
    /// One copy, no paper size.
    fn default() -> (r: PrintOptions)
        ensures
            r.copies == 1,
            r.paper_size is None,
    {
        PrintOptions { copies: default_copies(), paper_size: None }
    }
}

/// Outcome of one print request.
pub struct PrintResult {
    /// The request's `id`.
    pub id: String,
    /// `success` or `error`.
    pub status: String,
    pub message: Option<String>,
}

/// One printer of the backend.
pub struct PrinterInfo {
    /// Unique within one listing.
    pub name: String,
    /// True for at most one printer of a listing.
    pub is_default: bool,
    /// `ready`, `busy`, `error` or `offline`.
    pub status: String,
}

pub struct PrintersResponse {
    pub printers: Vec<PrinterInfo>,
}

pub struct StatusResponse {
    /// Always `online`.
    pub status: String,
    /// Open connections when the status was taken.
    pub connections: usize,
    pub version: String,
}

pub struct ErrorResponse {
    /// `INVALID_MESSAGE` or `PRINTER_ERROR`.
    pub code: String,
    pub message: String,
}

} // verus!
